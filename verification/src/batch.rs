//! Batch: the synchronization unit between the entity set and the GPU
//! buffers that draw it.
//!
//! A batch owns one texture association and the in-memory record lists
//! (entity records, vertices, indices) for all entities sharing that
//! texture. Each frame, `update` repopulates the records from the current
//! entity set, adjusts the index list when the set grew or shrank, and
//! decides whether the render layer must recreate its GPU buffers (their
//! byte size changed, or they do not exist yet) or may overwrite them in
//! place. The render layer performs those buffer writes and hands nothing
//! back: the decision and the data are fixed here.

use vstd::prelude::*;

verus! {

use crate::EngineError;
use crate::entity::{raw2_of, Entity2D, RawEntity2D};
use crate::identity::IdPool;
use crate::texture::Texture2D;
use crate::vertex::Vertex2D;

/// The largest entity count a batch accepts: each entity's 4-vertex block
/// must stay addressable by 16-bit indices, so the last index `4k + 3` must
/// fit in a `u16`.
pub const MAX_BATCH_ENTITIES: usize = 16384;

/// The six indices of the `k`-th entity's two triangles, relative to its own
/// 4-vertex block: `[4k, 4k+1, 4k+2, 4k, 4k+2, 4k+3]`.
pub open spec fn index_block(k: int) -> Seq<u16> {
    seq![
        (4 * k) as u16,
        (4 * k + 1) as u16,
        (4 * k + 2) as u16,
        (4 * k) as u16,
        (4 * k + 2) as u16,
        (4 * k + 3) as u16,
    ]
}

/// The full index list for `n` entities: the blocks of entities `0..n` in
/// order.
pub open spec fn index_seq(n: int) -> Seq<u16>
    decreases n,
{
    if n <= 0 {
        Seq::empty()
    } else {
        index_seq(n - 1) + index_block(n - 1)
    }
}

pub proof fn lemma_index_seq_len(n: int)
    requires
        n >= 0,
    ensures
        index_seq(n).len() == 6 * n,
    decreases n,
{
    if n > 0 {
        lemma_index_seq_len(n - 1);
    }
}

/// The index list of fewer entities is a prefix of the index list of more:
/// growing or shrinking the entity set appends or pops whole blocks.
pub proof fn lemma_index_seq_prefix(m: int, n: int)
    requires
        0 <= m <= n,
    ensures
        index_seq(n).subrange(0, 6 * m) === index_seq(m),
    decreases n,
{
    lemma_index_seq_len(m);
    lemma_index_seq_len(n);
    if m < n {
        lemma_index_seq_prefix(m, n - 1);
        lemma_index_seq_len(n - 1);
        assert(index_seq(n).subrange(0, 6 * m) =~= index_seq(n - 1).subrange(0, 6 * m));
    } else {
        assert(index_seq(n).subrange(0, 6 * m) =~= index_seq(m));
    }
}

/// Batch index law: after an update with `n` entities the index list holds
/// exactly `6 * n` entries, and the `k`-th entity's block is exactly
/// `[4k, 4k+1, 4k+2, 4k, 4k+2, 4k+3]`.
pub proof fn lemma_index_pattern(n: int, k: int)
    requires
        0 <= k < n <= MAX_BATCH_ENTITIES as int,
    ensures
        index_seq(n).len() == 6 * n,
        index_seq(n)[6 * k] == (4 * k) as u16,
        index_seq(n)[6 * k + 1] == (4 * k + 1) as u16,
        index_seq(n)[6 * k + 2] == (4 * k + 2) as u16,
        index_seq(n)[6 * k + 3] == (4 * k) as u16,
        index_seq(n)[6 * k + 4] == (4 * k + 2) as u16,
        index_seq(n)[6 * k + 5] == (4 * k + 3) as u16,
    decreases n,
{
    lemma_index_seq_len(n);
    if k == n - 1 {
        lemma_index_seq_len(n - 1);
    } else {
        lemma_index_pattern(n - 1, k);
    }
}

/// The vertex list for an entity set: each entity's 4 vertices, in set
/// order.
pub open spec fn vertices_flat(entities: Seq<Entity2D>) -> Seq<Vertex2D>
    decreases entities.len(),
{
    if entities.len() == 0 {
        Seq::empty()
    } else {
        vertices_flat(entities.drop_last()) + entities.last().spec_vertices()
    }
}

pub proof fn lemma_vertices_flat_len(entities: Seq<Entity2D>)
    ensures
        vertices_flat(entities).len() == 4 * entities.len(),
    decreases entities.len(),
{
    broadcast use crate::entity::lemma_vertices_len;

    if entities.len() > 0 {
        lemma_vertices_flat_len(entities.drop_last());
    }
}

/// What the render layer must do to its GPU buffers after an `update`.
///
/// When `recreate_data` holds, the entity and vertex buffers must be
/// (re)created at the new size from the batch's records; otherwise their
/// contents may be overwritten in place, the byte size being unchanged.
/// When `recreate_index` holds, the index list changed length and the index
/// buffer must be rebuilt from it.
#[derive(Clone, Copy, PartialEq, Debug)]
pub struct BufferSync {
    pub recreate_data: bool,
    pub recreate_index: bool,
}

/// The batch of all entities drawn with one texture.
pub struct Batch2D {
    id: u32,
    entity_records: Vec<RawEntity2D>,
    vertex_records: Vec<Vertex2D>,
    index_records: Vec<u16>,
    texture: Texture2D,
    entity_count: usize,
    buffers_created: bool,
}

/// How a finished `update` call relates the batch's new state and its
/// verdict to the old state and the entity set it was given.
pub open spec fn update_post(
    pre: Batch2D,
    post: Batch2D,
    entities: Seq<Entity2D>,
    sync: BufferSync,
) -> bool {
    &&& post.spec_entity_records() === entities.map_values(|e: Entity2D| raw2_of(e))
    &&& post.spec_vertex_records() === vertices_flat(entities)
    &&& post.spec_index_records() === index_seq(entities.len() as int)
    &&& post.spec_entity_count() == entities.len()
    &&& post.spec_buffers_created()
    &&& post.spec_id() == pre.spec_id()
    &&& post.spec_texture() === pre.spec_texture()
    &&& sync.recreate_data == (!pre.spec_buffers_created() || entities.len()
        != pre.spec_entity_count())
    &&& sync.recreate_index == (entities.len() != pre.spec_entity_count())
}

/// Buffer-recreation idempotence: a second `update` with an unchanged
/// entity set leaves every record list exactly as the first call did and
/// asks the render layer for no buffer recreation at all.
pub proof fn lemma_update_idempotent(
    b0: Batch2D,
    b1: Batch2D,
    s1: BufferSync,
    b2: Batch2D,
    s2: BufferSync,
    entities: Seq<Entity2D>,
)
    requires
        update_post(b0, b1, entities, s1),
        update_post(b1, b2, entities, s2),
    ensures
        b2.spec_entity_records() === b1.spec_entity_records(),
        b2.spec_vertex_records() === b1.spec_vertex_records(),
        b2.spec_index_records() === b1.spec_index_records(),
        !s2.recreate_data,
        !s2.recreate_index,
{
}

impl Batch2D {
    pub closed spec fn spec_id(self) -> u32 {
        self.id
    }

    pub closed spec fn spec_entity_records(self) -> Seq<RawEntity2D> {
        self.entity_records@
    }

    pub closed spec fn spec_vertex_records(self) -> Seq<Vertex2D> {
        self.vertex_records@
    }

    pub closed spec fn spec_index_records(self) -> Seq<u16> {
        self.index_records@
    }

    pub closed spec fn spec_texture(self) -> Texture2D {
        self.texture
    }

    /// The entity count remembered from the last `update`.
    pub closed spec fn spec_entity_count(self) -> int {
        self.entity_count as int
    }

    /// Whether `update` has run at least once, so that the render layer's
    /// buffers exist.
    pub closed spec fn spec_buffers_created(self) -> bool {
        self.buffers_created
    }

    /// Well-formedness: the remembered count stays within the index range,
    /// the index list is exactly the blocks for that count, and the record
    /// lists have one record and four vertices per counted entity.
    pub open spec fn wf(self) -> bool {
        &&& 0 <= self.spec_entity_count() <= MAX_BATCH_ENTITIES as int
        &&& self.spec_index_records() === index_seq(self.spec_entity_count())
        &&& self.spec_entity_records().len() == self.spec_entity_count()
        &&& self.spec_vertex_records().len() == 4 * self.spec_entity_count()
    }

    /// A batch for the entities drawn with `texture`, with a fresh
    /// identifier from the pool and no records yet.
    pub fn new(pool: &mut IdPool, texture: Texture2D) -> (b: Batch2D)
        requires
            old(pool).wf(),
            old(pool).ids().len() < 0xFFFF_FFFF,
        ensures
            b.wf(),
            b.spec_entity_count() == 0,
            !b.spec_buffers_created(),
            b.spec_entity_records() === Seq::empty(),
            b.spec_vertex_records() === Seq::empty(),
            b.spec_index_records() === Seq::empty(),
            b.spec_texture() === texture,
            !old(pool).contains(b.spec_id()),
            final(pool).wf(),
            final(pool).ids() === old(pool).ids().push(b.spec_id()),
    {
        let id = pool.allocate();
        Batch2D {
            id,
            entity_records: Vec::new(),
            vertex_records: Vec::new(),
            index_records: Vec::new(),
            texture,
            entity_count: 0,
            buffers_created: false,
        }
    }

    /// Synchronize the batch with the current entity set.
    ///
    /// The record lists are cleared and repopulated from the set in its
    /// iteration order; when the set grew or shrank, whole index blocks are
    /// appended or popped to match. The verdict tells the render layer
    /// whether its buffers must be recreated or may be overwritten in place
    /// (see [`BufferSync`]).
    pub fn update(&mut self, entities: &Vec<Entity2D>) -> (sync: BufferSync)
        requires
            old(self).wf(),
            entities@.len() <= MAX_BATCH_ENTITIES as int,
        ensures
            final(self).wf(),
            update_post(*old(self), *final(self), entities@, sync),
    {
        let ghost pre = *old(self);
        let resize_needed = entities.len() != self.entity_count;

        self.entity_records.clear();
        self.vertex_records.clear();
        let mut i: usize = 0;
        while i < entities.len()
            invariant
                i <= entities@.len(),
                entities@.len() <= MAX_BATCH_ENTITIES as int,
                self.entity_records@ === entities@.take(i as int).map_values(
                    |e: Entity2D| raw2_of(e),
                ),
                self.vertex_records@ === vertices_flat(entities@.take(i as int)),
                self.index_records@ === pre.spec_index_records(),
                self.entity_count == pre.spec_entity_count(),
                self.buffers_created == pre.spec_buffers_created(),
                self.id == pre.spec_id(),
                self.texture === pre.spec_texture(),
            decreases entities@.len() - i,
        {
            let entity = &entities[i];
            self.entity_records.push(entity.to_raw());
            let vs = entity.vertices();
            self.vertex_records.push(vs[0]);
            self.vertex_records.push(vs[1]);
            self.vertex_records.push(vs[2]);
            self.vertex_records.push(vs[3]);
            proof {
                let taken = entities@.take(i as int);
                let taken1 = entities@.take(i as int + 1);
                assert(taken1.drop_last() =~= taken);
                assert(taken1.last() === entities@[i as int]);
                assert(self.entity_records@ =~= taken1.map_values(|e: Entity2D| raw2_of(e)));
                assert(self.vertex_records@ =~= vertices_flat(taken)
                    + entities@[i as int].spec_vertices());
            }
            i += 1;
        }
        proof {
            assert(entities@.take(entities@.len() as int) =~= entities@);
            lemma_vertices_flat_len(entities@);
        }

        if resize_needed {
            if entities.len() < self.entity_count {
                self.index_records.truncate(6 * entities.len());
                proof {
                    lemma_index_seq_prefix(entities@.len() as int, pre.spec_entity_count());
                    lemma_index_seq_len(pre.spec_entity_count());
                }
            } else {
                let mut k = self.entity_count;
                while k < entities.len()
                    invariant
                        k <= entities@.len(),
                        entities@.len() <= MAX_BATCH_ENTITIES as int,
                        self.index_records@ === index_seq(k as int),
                        self.entity_records@ === entities@.map_values(|e: Entity2D| raw2_of(e)),
                        self.vertex_records@ === vertices_flat(entities@),
                        self.entity_count == pre.spec_entity_count(),
                        self.buffers_created == pre.spec_buffers_created(),
                        self.id == pre.spec_id(),
                        self.texture === pre.spec_texture(),
                    decreases entities@.len() - k,
                {
                    let base: u16 = (k as u16) * 4;
                    self.index_records.push(base);
                    self.index_records.push(base + 1);
                    self.index_records.push(base + 2);
                    self.index_records.push(base);
                    self.index_records.push(base + 2);
                    self.index_records.push(base + 3);
                    proof {
                        assert(self.index_records@ =~= index_seq(k as int) + index_block(
                            k as int,
                        ));
                    }
                    k += 1;
                }
            }
            self.entity_count = entities.len();
        }

        let created = self.buffers_created;
        self.buffers_created = true;
        BufferSync {
            recreate_data: !created || resize_needed,
            recreate_index: resize_needed,
        }
    }

    /// The raw entity records of the last `update`, one per entity.
    pub fn entity_records(&self) -> (r: &Vec<RawEntity2D>)
        ensures
            r@ === self.spec_entity_records(),
    {
        &self.entity_records
    }

    /// The vertex records of the last `update`, four per entity.
    pub fn vertex_records(&self) -> (r: &Vec<Vertex2D>)
        ensures
            r@ === self.spec_vertex_records(),
    {
        &self.vertex_records
    }

    /// The index list, six entries per entity.
    pub fn index_records(&self) -> (r: &Vec<u16>)
        ensures
            r@ === self.spec_index_records(),
    {
        &self.index_records
    }

    /// The texture the batch's entities are drawn with.
    pub fn texture(&self) -> (t: &Texture2D)
        ensures
            *t === self.spec_texture(),
    {
        &self.texture
    }

    /// The entity count remembered from the last `update`.
    pub fn entity_count(&self) -> (n: u32)
        requires
            self.wf(),
        ensures
            n == self.spec_entity_count(),
    {
        self.entity_count as u32
    }

    pub fn id(&self) -> (id: u32)
        ensures
            id == self.spec_id(),
    {
        self.id
    }

    /// Tear the batch down, releasing its identifier back to the pool
    /// exactly once. An identifier the pool does not hold marks a corrupted
    /// lifecycle and is reported.
    pub fn destroy(self, pool: &mut IdPool) -> (r: Result<(), EngineError>)
        requires
            old(pool).wf(),
        ensures
            final(pool).wf(),
            match r {
                Ok(()) => {
                    &&& old(pool).contains(self.spec_id())
                    &&& !final(pool).contains(self.spec_id())
                    &&& final(pool).ids() === old(pool).ids().remove(
                        old(pool).ids().index_of(self.spec_id()),
                    )
                },
                Err(e) => {
                    &&& e === EngineError::InvariantViolation
                    &&& !old(pool).contains(self.spec_id())
                    &&& final(pool).ids() === old(pool).ids()
                },
            },
    {
        pool.release(self.id)
    }
}

} // verus!
