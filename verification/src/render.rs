//! Grouping draw operations into batches and batches into draw calls.

use crate::geometry::{Ratio, Rect};
use crate::pipeline::{IndexFormat, CAMERA_BIND_GROUP, TEXTURE_BIND_GROUP, VERTEX_BUFFER_SLOT};
use crate::outside::{ascending_keys, group_by_index, index_bytes, share};
use crate::sprite::Sprite;
use crate::texture::{Texture, TextureId};
use crate::vertex::{
    corner_at, depth, quad_corner, quad_indices, quad_vertices, spec_depth, TextureVertex,
    MAX_QUADS_PER_BATCH,
};
use std::rc::Rc;
use vstd::prelude::*;

verus! {

/// A request to draw the part `tex_coords` of `texture` into `destination`.
/// Operations with a smaller `index` are drawn first and end up behind.
#[derive(Debug, PartialEq)]
pub struct DrawTextureOperation<C> {
    pub index: u16,
    pub destination: Rect<C>,
    pub tex_coords: Rect<Ratio>,
    pub texture: Rc<Texture>,
}

impl<C> DrawTextureOperation<C> {
    /// The operation that draws `sprite` into `destination` at `index`.
    pub fn new(index: u16, sprite: &Sprite, destination: Rect<C>) -> (operation: Self)
        ensures
            operation.index == index,
            operation.destination == destination,
            operation.tex_coords == sprite.tex_coords,
            operation.texture == sprite.texture,
    {
        DrawTextureOperation {
            index,
            destination,
            tex_coords: sprite.tex_coords,
            texture: share(&sprite.texture),
        }
    }
}

/// The geometry of all operations of one draw-order index, drawn with one
/// call.
#[derive(Debug, PartialEq)]
pub struct Batch<C> {
    pub index: u16,
    /// The texture the whole batch is drawn with: that of its first
    /// operation.
    pub texture: Rc<Texture>,
    pub vertices: Vec<TextureVertex<C>>,
    pub indices: Vec<u16>,
}

/// What a [`Batch`] holds.
pub ghost struct BatchView<C> {
    pub index: u16,
    pub texture: Rc<Texture>,
    pub vertices: Seq<TextureVertex<C>>,
    pub indices: Seq<u16>,
}

impl<C> View for Batch<C> {
    type V = BatchView<C>;

    open spec fn view(&self) -> BatchView<C> {
        BatchView {
            index: self.index,
            texture: self.texture,
            vertices: self.vertices@,
            indices: self.indices@,
        }
    }
}

/// `bytes` holds `indices` with the low byte of each index first.
pub open spec fn is_little_endian_image(bytes: Seq<u8>, indices: Seq<u16>) -> bool {
    &&& bytes.len() == 2 * indices.len()
    &&& forall|i: int|
        0 <= i < indices.len() ==> bytes[2 * i] == (#[trigger] indices[i]) % 256 && bytes[2 * i
            + 1] == indices[i] / 256
}

/// `bytes` holds `indices` with the high byte of each index first.
pub open spec fn is_big_endian_image(bytes: Seq<u8>, indices: Seq<u16>) -> bool {
    &&& bytes.len() == 2 * indices.len()
    &&& forall|i: int|
        0 <= i < indices.len() ==> bytes[2 * i] == (#[trigger] indices[i]) / 256 && bytes[2 * i
            + 1] == indices[i] % 256
}

/// `bytes` holds `indices` as they lie in memory, in one of the two byte
/// orders.
pub open spec fn is_byte_image(bytes: Seq<u8>, indices: Seq<u16>) -> bool {
    is_little_endian_image(bytes, indices) || is_big_endian_image(bytes, indices)
}

impl<C> Batch<C> {
    /// The contents of the index buffer of this batch.
    pub fn index_bytes(&self) -> (bytes: Vec<u8>)
        ensures
            is_byte_image(bytes@, self.indices@),
    {
        index_bytes(self.indices.as_slice())
    }
}

/// One indexed draw: bind the pipeline and the bind group of `texture`, the
/// vertex and index buffers of batch number `batch`, and draw the indices
/// `0..index_count` once.
#[derive(Clone, Copy, Debug, PartialEq, Eq)]
pub struct DrawCall {
    pub batch: usize,
    pub texture: TextureId,
    pub index_count: u32,
}

/// What a bind group holds.
#[derive(Clone, Copy, Debug, PartialEq, Eq)]
pub enum BoundResources {
    /// The projection of the camera.
    Camera,
    /// The view and the sampler of a texture.
    Texture(TextureId),
}

/// One command recorded into a render pass.
#[derive(Clone, Copy, Debug, PartialEq, Eq)]
pub enum RenderCommand {
    /// Use the render pipeline of `texture`.
    SetPipeline { texture: TextureId },
    SetBindGroup { group: u32, resources: BoundResources },
    /// Read vertices from the whole vertex buffer of batch number `batch`.
    SetVertexBuffer { slot: u32, batch: usize },
    /// Read indices from the whole index buffer of batch number `batch`.
    SetIndexBuffer { batch: usize, format: IndexFormat },
    /// Draw the indices `0..index_count`, `instance_count` times.
    DrawIndexed { index_count: u32, base_vertex: i32, instance_count: u32 },
}

impl DrawCall {
    /// The commands that make up this draw call, in the order in which they
    /// are recorded.
    pub open spec fn spec_commands(self) -> Seq<RenderCommand> {
        seq![
            RenderCommand::SetPipeline { texture: self.texture },
            RenderCommand::SetBindGroup {
                group: CAMERA_BIND_GROUP,
                resources: BoundResources::Camera,
            },
            RenderCommand::SetBindGroup {
                group: TEXTURE_BIND_GROUP,
                resources: BoundResources::Texture(self.texture),
            },
            RenderCommand::SetVertexBuffer { slot: VERTEX_BUFFER_SLOT, batch: self.batch },
            RenderCommand::SetIndexBuffer { batch: self.batch, format: IndexFormat::Uint16 },
            RenderCommand::DrawIndexed {
                index_count: self.index_count,
                base_vertex: 0,
                instance_count: 1,
            },
        ]
    }

    pub fn commands(&self) -> (commands: Vec<RenderCommand>)
        ensures
            commands@ == self.spec_commands(),
    {
        let commands = vec![
            RenderCommand::SetPipeline { texture: self.texture },
            RenderCommand::SetBindGroup {
                group: CAMERA_BIND_GROUP,
                resources: BoundResources::Camera,
            },
            RenderCommand::SetBindGroup {
                group: TEXTURE_BIND_GROUP,
                resources: BoundResources::Texture(self.texture),
            },
            RenderCommand::SetVertexBuffer { slot: VERTEX_BUFFER_SLOT, batch: self.batch },
            RenderCommand::SetIndexBuffer { batch: self.batch, format: IndexFormat::Uint16 },
            RenderCommand::DrawIndexed {
                index_count: self.index_count,
                base_vertex: 0,
                instance_count: 1,
            },
        ];
        assert(commands@ =~= self.spec_commands());
        commands
    }
}

/// The values behind a sequence of references.
pub open spec fn referents<T>(references: Seq<&T>) -> Seq<T> {
    references.map_values(|reference: &T| *reference)
}

/// The test for being drawn at `index`.
pub open spec fn drawn_at<C>(index: u16) -> spec_fn(DrawTextureOperation<C>) -> bool {
    |operation: DrawTextureOperation<C>| operation.index == index
}

/// The operations drawn at `index`, in the order in which they were
/// submitted.
pub open spec fn group<C>(operations: Seq<DrawTextureOperation<C>>, index: u16) -> Seq<
    DrawTextureOperation<C>,
> {
    operations.filter(drawn_at(index))
}

/// Some operation is drawn at `index`.
pub open spec fn uses_index<C>(operations: Seq<DrawTextureOperation<C>>, index: u16) -> bool {
    group(operations, index).len() > 0
}

/// No draw-order index has more operations than one batch can hold.
pub open spec fn fits_batches<C>(operations: Seq<DrawTextureOperation<C>>) -> bool {
    forall|index: u16| #[trigger] group(operations, index).len() <= MAX_QUADS_PER_BATCH
}

/// The vertices of `members`: four for each, in the order of the members.
pub open spec fn group_vertices<C>(members: Seq<DrawTextureOperation<C>>) -> Seq<TextureVertex<C>> {
    Seq::new(
        4 * members.len(),
        |i: int|
            quad_corner(
                members[i / 4].destination,
                members[i / 4].tex_coords,
                spec_depth(members[i / 4].index),
                i % 4,
            ),
    )
}

/// The batch of everything that `operations` draws at `index`.
pub open spec fn batch_of<C>(operations: Seq<DrawTextureOperation<C>>, index: u16) -> BatchView<C> {
    let members = group(operations, index);
    BatchView {
        index,
        texture: members[0].texture,
        vertices: group_vertices(members),
        indices: quad_indices(members.len()),
    }
}

/// One of `batches` is drawn at `index`.
pub open spec fn has_batch<C>(batches: Seq<BatchView<C>>, index: u16) -> bool {
    exists|j: int| 0 <= j < batches.len() && (#[trigger] batches[j]).index == index
}

/// `batches` is what `operations` is drawn as: one batch for each draw-order
/// index in use, in ascending order of that index, each holding exactly the
/// geometry of the operations at its index.
pub open spec fn is_frame<C>(
    operations: Seq<DrawTextureOperation<C>>,
    batches: Seq<BatchView<C>>,
) -> bool {
    &&& forall|i: int, j: int|
        0 <= i < j < batches.len() ==> (#[trigger] batches[i]).index < (#[trigger] batches[j]).index
    &&& forall|index: u16| #[trigger]
        uses_index(operations, index) <==> has_batch(batches, index)
    &&& forall|j: int|
        0 <= j < batches.len() ==> #[trigger] batches[j] == batch_of(operations, batches[j].index)
}

/// The draw calls for `batches`: one for each, in their order.
pub open spec fn draw_calls<C>(batches: Seq<BatchView<C>>) -> Seq<DrawCall> {
    Seq::new(
        batches.len(),
        |j: int|
            DrawCall {
                batch: j as usize,
                texture: batches[j].texture.id,
                index_count: batches[j].indices.len() as u32,
            },
    )
}

/// Quad number `quad` of `batch` is that of `operation`: its four vertices
/// are the corners of the destination, top-left, bottom-left, bottom-right,
/// top-right, each with the matching corner of the texture coordinates, and
/// its six indices name them as `0, 1, 2, 2, 3, 0`.
pub open spec fn draws_quad<C>(
    batch: BatchView<C>,
    quad: int,
    operation: DrawTextureOperation<C>,
) -> bool {
    &&& 0 <= quad
    &&& 4 * quad + 4 <= batch.vertices.len()
    &&& 6 * quad + 6 <= batch.indices.len()
    &&& forall|corner: int|
        0 <= corner < 4 ==> #[trigger] batch.vertices[4 * quad + corner] == quad_corner(
            operation.destination,
            operation.tex_coords,
            spec_depth(operation.index),
            corner,
        )
    &&& forall|slot: int|
        0 <= slot < 6 ==> #[trigger] batch.indices[6 * quad + slot] == 4 * quad + corner_at(slot)
}

/// The vertices of the quads of `members`.
fn build_vertices<C: Copy>(members: &Vec<&DrawTextureOperation<C>>) -> (vertices: Vec<
    TextureVertex<C>,
>)
    requires
        members.len() <= MAX_QUADS_PER_BATCH,
    ensures
        vertices@ == group_vertices(referents(members@)),
{
    let ghost quads = referents(members@);
    let mut vertices: Vec<TextureVertex<C>> = Vec::new();
    let mut n: usize = 0;
    while n < members.len()
        invariant
            n <= members.len() <= MAX_QUADS_PER_BATCH,
            quads == referents(members@),
            vertices.len() == 4 * n,
            forall|i: int|
                0 <= i < 4 * n ==> vertices[i] == quad_corner(
                    quads[i / 4].destination,
                    quads[i / 4].tex_coords,
                    spec_depth(quads[i / 4].index),
                    i % 4,
                ),
        decreases members.len() - n,
    {
        let operation = members[n];
        let quad = quad_vertices(&operation.destination, &operation.tex_coords, depth(operation.index));
        vertices.push(quad[0]);
        vertices.push(quad[1]);
        vertices.push(quad[2]);
        vertices.push(quad[3]);
        n = n + 1;
    }
    assert(vertices@ =~= group_vertices(quads));
    vertices
}

/// The index list for `quads` quads.
fn build_indices(quads: usize) -> (indices: Vec<u16>)
    requires
        quads <= MAX_QUADS_PER_BATCH,
    ensures
        indices@ == quad_indices(quads as nat),
{
    let mut indices: Vec<u16> = Vec::new();
    let mut n: usize = 0;
    while n < quads
        invariant
            n <= quads <= MAX_QUADS_PER_BATCH,
            indices.len() == 6 * n,
            forall|i: int| 0 <= i < 6 * n ==> indices[i] == quad_indices(quads as nat)[i],
        decreases quads - n,
    {
        let step: u16 = (n as u16) * 4;
        indices.push(step);
        indices.push(step + 1);
        indices.push(step + 2);
        indices.push(step + 2);
        indices.push(step + 3);
        indices.push(step);
        n = n + 1;
    }
    assert(indices@ =~= quad_indices(quads as nat));
    indices
}

/// Turns the draw operations of a frame into batches and draw calls. The
/// batches of the last frame are kept until the next one is rendered.
#[derive(Debug)]
pub struct TextureRenderer<C> {
    batches: Vec<Batch<C>>,
}

impl<C> View for TextureRenderer<C> {
    type V = Seq<BatchView<C>>;

    closed spec fn view(&self) -> Seq<BatchView<C>> {
        self.batches@.map_values(|batch: Batch<C>| batch@)
    }
}

impl<C: Copy> TextureRenderer<C> {
    /// A renderer that has rendered nothing yet.
    pub fn new() -> (renderer: Self)
        ensures
            renderer@ == Seq::<BatchView<C>>::empty(),
    {
        let renderer = TextureRenderer { batches: Vec::new() };
        assert(renderer@ =~= Seq::<BatchView<C>>::empty());
        renderer
    }

    /// The batches of the frame rendered last.
    pub fn batches(&self) -> (batches: &Vec<Batch<C>>)
        ensures
            batches@.map_values(|batch: Batch<C>| batch@) == self@,
    {
        &self.batches
    }

    /// Says whether `operations` can be rendered.
    pub fn can_render(operations: &Vec<DrawTextureOperation<C>>) -> (fits: bool)
        ensures
            fits == fits_batches(operations@),
    {
        let groups = group_by_index(operations);
        let keys = ascending_keys(&groups);
        let mut k: usize = 0;
        while k < keys.len()
            invariant
                k <= keys.len(),
                forall|index: u16| #[trigger]
                    groups@.contains_key(index) <==> group(operations@, index).len() > 0,
                forall|index: u16| #[trigger]
                    groups@.contains_key(index) ==> referents(groups@[index]@) == group(
                        operations@,
                        index,
                    ),
                forall|index: u16| keys@.contains(index) <==> groups@.contains_key(index),
                forall|i: int|
                    0 <= i < k ==> group(operations@, #[trigger] keys[i]).len()
                        <= MAX_QUADS_PER_BATCH,
            decreases keys.len() - k,
        {
            broadcast use vstd::std_specs::hash::group_hash_axioms;

            let key = keys[k];
            assert(keys@.contains(key));
            if let Some(members) = groups.get(&key) {
                if members.len() > MAX_QUADS_PER_BATCH {
                    assert(group(operations@, key).len() > MAX_QUADS_PER_BATCH);
                    return false;
                }
            }
            k = k + 1;
        }
        assert forall|index: u16| #[trigger]
            group(operations@, index).len() <= MAX_QUADS_PER_BATCH by {
            if group(operations@, index).len() > 0 {
                assert(keys@.contains(index));
            }
        }
        true
    }

    /// Renders one frame. The batches of the frame before are dropped;
    /// `operations` is grouped by draw-order index, each group becomes one
    /// batch with four vertices and six indices for each of its operations,
    /// and the batches are drawn in ascending order of their index, one draw
    /// call each.
    pub fn render(&mut self, operations: &Vec<DrawTextureOperation<C>>) -> (calls: Vec<DrawCall>)
        requires
            fits_batches(operations@),
        ensures
            is_frame(operations@, final(self)@),
            calls@ == draw_calls(final(self)@),
    {
        self.batches.clear();
        let groups = group_by_index(operations);
        let keys = ascending_keys(&groups);
        let mut calls: Vec<DrawCall> = Vec::new();
        let mut k: usize = 0;
        while k < keys.len()
            invariant
                k <= keys.len(),
                fits_batches(operations@),
                forall|index: u16| #[trigger]
                    groups@.contains_key(index) <==> group(operations@, index).len() > 0,
                forall|index: u16| #[trigger]
                    groups@.contains_key(index) ==> referents(groups@[index]@) == group(
                        operations@,
                        index,
                    ),
                forall|index: u16| keys@.contains(index) <==> groups@.contains_key(index),
                self.batches.len() == k,
                calls.len() == k,
                forall|j: int|
                    0 <= j < k ==> (#[trigger] self.batches[j])@ == batch_of(
                        operations@,
                        keys[j],
                    ),
                forall|j: int|
                    0 <= j < k ==> #[trigger] calls[j] == (DrawCall {
                        batch: j as usize,
                        texture: self.batches[j].texture.id,
                        index_count: self.batches[j].indices.len() as u32,
                    }),
            decreases keys.len() - k,
        {
            broadcast use vstd::std_specs::hash::group_hash_axioms;

            let key = keys[k];
            assert(keys@.contains(key));
            assert(group(operations@, key).len() <= MAX_QUADS_PER_BATCH);
            match groups.get(&key) {
                Some(members) => {
                    assert(referents(members@) == group(operations@, key));
                    assert(referents(members@).len() == members@.len());
                    let first = members[0];
                    assert(*first == referents(members@)[0]);
                    let texture = share(&first.texture);
                    let vertices = build_vertices(members);
                    let indices = build_indices(members.len());
                    calls.push(
                        DrawCall {
                            batch: k,
                            texture: texture.id,
                            index_count: indices.len() as u32,
                        },
                    );
                    self.batches.push(Batch { index: key, texture, vertices, indices });
                },
                None => {
                    assert(false);
                },
            }
            k = k + 1;
        }
        proof {
            let batches = self@;
            assert(batches.len() == keys.len());
            assert forall|j: int| 0 <= j < batches.len() implies #[trigger] batches[j] == batch_of(
                operations@,
                keys[j],
            ) by {
                assert(batches[j] == self.batches[j]@);
            }
            assert forall|index: u16| #[trigger]
                uses_index(operations@, index) <==> has_batch(batches, index) by {
                if uses_index(operations@, index) {
                    assert(keys@.contains(index));
                    let j = choose|j: int| 0 <= j < keys.len() && keys[j] == index;
                    assert(batches[j].index == index);
                }
                if has_batch(batches, index) {
                    let j = choose|j: int|
                        0 <= j < batches.len() && (#[trigger] batches[j]).index == index;
                    assert(keys[j] == index);
                    assert(keys@.contains(index));
                }
            }
            assert(calls@ =~= draw_calls(batches));
        }
        calls
    }
}

/// With nothing to draw at `index`, its group is empty; with all of
/// `operations` drawn at `index`, its group is all of them.
proof fn lemma_group_of_shared_index<C>(
    operations: Seq<DrawTextureOperation<C>>,
    shared: u16,
    index: u16,
)
    requires
        forall|i: int| 0 <= i < operations.len() ==> (#[trigger] operations[i]).index == shared,
    ensures
        index == shared ==> group(operations, index) == operations,
        index != shared ==> group(operations, index).len() == 0,
    decreases operations.len(),
{
    reveal(Seq::filter);
    if operations.len() > 0 {
        lemma_group_of_shared_index(operations.drop_last(), shared, index);
        assert(operations.drop_last().push(operations.last()) =~= operations);
    } else {
        assert(group(operations, index) =~= operations);
    }
}

/// Operations that would fit into one batch together can be rendered.
pub proof fn lemma_few_operations_fit<C>(operations: Seq<DrawTextureOperation<C>>)
    requires
        operations.len() <= MAX_QUADS_PER_BATCH,
    ensures
        fits_batches(operations),
{
    assert forall|index: u16| #[trigger]
        group(operations, index).len() <= MAX_QUADS_PER_BATCH by {
        operations.lemma_filter_len(drawn_at(index));
    }
}

/// Rendering nothing gives no batch and no draw call.
pub proof fn lemma_empty_frame<C>(batches: Seq<BatchView<C>>)
    requires
        is_frame(Seq::<DrawTextureOperation<C>>::empty(), batches),
    ensures
        batches.len() == 0,
        draw_calls(batches).len() == 0,
{
    if batches.len() > 0 {
        let index = batches[0].index;
        assert(has_batch(batches, index));
        assert(uses_index(Seq::<DrawTextureOperation<C>>::empty(), index));
        lemma_group_of_shared_index(Seq::<DrawTextureOperation<C>>::empty(), 0, index);
    }
}

/// Operations that all share one draw-order index are drawn as exactly one
/// batch, with four vertices and six indices for each of them, by one draw
/// call that covers all of those indices.
pub proof fn lemma_one_index_one_batch<C>(
    operations: Seq<DrawTextureOperation<C>>,
    batches: Seq<BatchView<C>>,
    index: u16,
)
    requires
        operations.len() > 0,
        forall|i: int| 0 <= i < operations.len() ==> (#[trigger] operations[i]).index == index,
        is_frame(operations, batches),
    ensures
        batches.len() == 1,
        batches[0].index == index,
        batches[0].vertices.len() == 4 * operations.len(),
        batches[0].indices.len() == 6 * operations.len(),
        draw_calls(batches).len() == 1,
        fits_batches(operations) ==> draw_calls(batches)[0].index_count == 6 * operations.len(),
{
    lemma_group_of_shared_index(operations, index, index);
    assert(uses_index(operations, index));
    assert(has_batch(batches, index));
    assert forall|j: int| 0 <= j < batches.len() implies (#[trigger] batches[j]).index == index by {
        let other = batches[j].index;
        assert(has_batch(batches, other));
        assert(uses_index(operations, other));
        lemma_group_of_shared_index(operations, index, other);
    }
    if batches.len() > 1 {
        assert(batches[0].index < batches[1].index);
    }
    assert(batches[0] == batch_of(operations, batches[0].index));
    if fits_batches(operations) {
        assert(group(operations, index).len() <= MAX_QUADS_PER_BATCH);
    }
}

/// Every operation is drawn: the batch of its draw-order index holds its
/// quad.
pub proof fn lemma_every_operation_is_drawn<C>(
    operations: Seq<DrawTextureOperation<C>>,
    batches: Seq<BatchView<C>>,
    i: int,
)
    requires
        is_frame(operations, batches),
        fits_batches(operations),
        0 <= i < operations.len(),
    ensures
        exists|j: int, quad: int|
            0 <= j < batches.len() && batches[j].index == operations[i].index
                && #[trigger] draws_quad(batches[j], quad, operations[i]),
{
    let operation = operations[i];
    let index = operation.index;
    let members = group(operations, index);
    operations.lemma_filter_contains(drawn_at(index), i);
    let quad = choose|quad: int| 0 <= quad < members.len() && members[quad] == operation;
    assert(uses_index(operations, index));
    assert(has_batch(batches, index));
    let j = choose|j: int| 0 <= j < batches.len() && (#[trigger] batches[j]).index == index;
    let batch = batches[j];
    assert(batch == batch_of(operations, index));
    assert(members.len() <= MAX_QUADS_PER_BATCH);
    assert forall|corner: int| 0 <= corner < 4 implies #[trigger] batch.vertices[4 * quad + corner]
        == quad_corner(
        operation.destination,
        operation.tex_coords,
        spec_depth(operation.index),
        corner,
    ) by {
        assert((4 * quad + corner) / 4 == quad);
        assert((4 * quad + corner) % 4 == corner);
    }
    assert forall|slot: int| 0 <= slot < 6 implies #[trigger] batch.indices[6 * quad + slot] == 4
        * quad + corner_at(slot) by {
        assert((6 * quad + slot) / 6 == quad);
        assert((6 * quad + slot) % 6 == slot);
    }
    assert(draws_quad(batches[j], quad, operations[i]));
}

/// Quad number `quad` of `batch` shows a whole texture in the destination of
/// `operation`: the texture coordinates `(0, 0)` at the top left of the
/// destination, `(0, 1)` at the bottom left, `(1, 1)` at the bottom right and
/// `(1, 0)` at the top right.
pub open spec fn draws_whole_texture<C>(
    batch: BatchView<C>,
    quad: int,
    operation: DrawTextureOperation<C>,
) -> bool {
    let depth = spec_depth(operation.index);
    let zero = Ratio { num: 0, den: 1 };
    let one = Ratio { num: 1, den: 1 };
    &&& 0 <= quad
    &&& 4 * quad + 4 <= batch.vertices.len()
    &&& batch.vertices[4 * quad] == (TextureVertex {
        position: (operation.destination.left, operation.destination.top),
        depth,
        tex_coords: (zero, zero),
    })
    &&& batch.vertices[4 * quad + 1] == (TextureVertex {
        position: (operation.destination.left, operation.destination.bottom),
        depth,
        tex_coords: (zero, one),
    })
    &&& batch.vertices[4 * quad + 2] == (TextureVertex {
        position: (operation.destination.right, operation.destination.bottom),
        depth,
        tex_coords: (one, one),
    })
    &&& batch.vertices[4 * quad + 3] == (TextureVertex {
        position: (operation.destination.right, operation.destination.top),
        depth,
        tex_coords: (one, zero),
    })
}

/// An operation that shows a whole texture is drawn with the texture
/// coordinates `{0, 0, 1, 1}` as they are, each at its corner of the
/// destination.
pub proof fn lemma_whole_texture_is_drawn_verbatim<C>(
    operations: Seq<DrawTextureOperation<C>>,
    batches: Seq<BatchView<C>>,
    i: int,
)
    requires
        is_frame(operations, batches),
        fits_batches(operations),
        0 <= i < operations.len(),
        operations[i].tex_coords == Rect::<Ratio>::full(),
    ensures
        exists|j: int, quad: int|
            0 <= j < batches.len() && batches[j].index == operations[i].index
                && #[trigger] draws_whole_texture(batches[j], quad, operations[i]),
{
    lemma_every_operation_is_drawn(operations, batches, i);
    let (j, quad) = choose|j: int, quad: int|
        0 <= j < batches.len() && batches[j].index == operations[i].index
            && #[trigger] draws_quad(batches[j], quad, operations[i]);
    let vertices = batches[j].vertices;
    assert(vertices[4 * quad + 0] == quad_corner(
        operations[i].destination,
        operations[i].tex_coords,
        spec_depth(operations[i].index),
        0,
    ));
    assert(vertices[4 * quad + 1] == quad_corner(
        operations[i].destination,
        operations[i].tex_coords,
        spec_depth(operations[i].index),
        1,
    ));
    assert(vertices[4 * quad + 2] == quad_corner(
        operations[i].destination,
        operations[i].tex_coords,
        spec_depth(operations[i].index),
        2,
    ));
    assert(vertices[4 * quad + 3] == quad_corner(
        operations[i].destination,
        operations[i].tex_coords,
        spec_depth(operations[i].index),
        3,
    ));
    assert(draws_whole_texture(batches[j], quad, operations[i]));
}

/// Frames of operations that use the same draw-order indices agree on the
/// index of batch number `j`.
proof fn lemma_same_order<C>(
    first: Seq<DrawTextureOperation<C>>,
    second: Seq<DrawTextureOperation<C>>,
    a: Seq<BatchView<C>>,
    b: Seq<BatchView<C>>,
    j: int,
)
    requires
        is_frame(first, a),
        is_frame(second, b),
        forall|index: u16| #[trigger] uses_index(first, index) <==> uses_index(second, index),
        0 <= j < a.len(),
    ensures
        j < b.len(),
        a[j].index == b[j].index,
    decreases j,
{
    if j > 0 {
        lemma_same_order(first, second, a, b, j - 1);
    }
    let index = a[j].index;
    assert(has_batch(a, index));
    assert(uses_index(first, index));
    assert(has_batch(b, index));
    let at = choose|at: int| 0 <= at < b.len() && (#[trigger] b[at]).index == index;
    if at < j {
        lemma_same_order(first, second, a, b, at);
        assert(a[at].index < a[j].index);
    }
    let other = b[j].index;
    assert(has_batch(b, other));
    assert(uses_index(second, other));
    assert(uses_index(first, other));
    assert(has_batch(a, other));
    let back = choose|back: int| 0 <= back < a.len() && (#[trigger] a[back]).index == other;
    if back < j {
        lemma_same_order(first, second, a, b, back);
        assert(b[back].index < b[j].index);
    }
    if at > j {
        assert(b[j].index < b[at].index);
    }
    if back > j {
        assert(a[j].index < a[back].index);
    }
}

/// The order of drawing does not depend on the order of submission: frames
/// of operations that use the same draw-order indices have as many batches,
/// at the same indices, one after the other.
pub proof fn lemma_draw_order_ignores_submission<C>(
    first: Seq<DrawTextureOperation<C>>,
    second: Seq<DrawTextureOperation<C>>,
    a: Seq<BatchView<C>>,
    b: Seq<BatchView<C>>,
)
    requires
        is_frame(first, a),
        is_frame(second, b),
        forall|index: u16| #[trigger] uses_index(first, index) <==> uses_index(second, index),
    ensures
        a.len() == b.len(),
        forall|j: int| 0 <= j < a.len() ==> (#[trigger] a[j]).index == b[j].index,
{
    if a.len() > 0 {
        lemma_same_order(first, second, a, b, a.len() - 1);
    }
    if b.len() > 0 {
        lemma_same_order(second, first, b, a, b.len() - 1);
    }
    assert forall|j: int| 0 <= j < a.len() implies (#[trigger] a[j]).index == b[j].index by {
        lemma_same_order(first, second, a, b, j);
    }
}

/// The operations of a frame decide its batches: there is one way only to
/// draw them.
pub proof fn lemma_frame_is_unique<C>(
    operations: Seq<DrawTextureOperation<C>>,
    a: Seq<BatchView<C>>,
    b: Seq<BatchView<C>>,
)
    requires
        is_frame(operations, a),
        is_frame(operations, b),
    ensures
        a == b,
{
    lemma_draw_order_ignores_submission(operations, operations, a, b);
    assert forall|j: int| 0 <= j < a.len() implies a[j] == b[j] by {
        assert(a[j] == batch_of(operations, a[j].index));
        assert(b[j] == batch_of(operations, b[j].index));
    }
    assert(a =~= b);
}

} // verus!
