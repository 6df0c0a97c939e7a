//! Bookkeeping of the models drawn by the renderer and of the per-model GPU
//! records (transform, bounding sphere, indirect draw command).
use vstd::prelude::*;

verus! {

/// Number of model records the GPU pools are sized for.
pub const MAX_MODELS: usize = 1024;
/// Bytes of one model transform (a 4x4 matrix of 32-bit floats).
pub const TRANSFORM_BYTES: usize = 64;
/// Bytes of one bounding sphere (centre and radius, four 32-bit floats).
pub const BOUNDING_SPHERE_BYTES: usize = 16;
/// Bytes of one indirect draw command (four 32-bit integers).
pub const DRAW_ARGS_BYTES: usize = 16;

/// How a model's draw is issued.
#[derive(Clone, Copy, Debug, PartialEq, Eq, Structural)]
pub enum RenderMode {
    /// Drawn by a draw call recorded on the CPU.
    CpuDriven,
    /// Drawn from an indirect command kept in a GPU buffer.
    GpuDriven,
}

/// One model's GPU geometry (buffers of type `B`) and draw parameters.
pub struct Model<B> {
    pub vertex_buffer: B,
    pub index_buffer: B,
    pub vertex_count: u32,
    pub index_count: u32,
    pub render_mode: RenderMode,
    pub model_index: u32,
}

/// The model built from the given buffers, element counts, mode and index.
pub open spec fn model_of<B>(
    vertex_buffer: B,
    index_buffer: B,
    vertex_len: usize,
    index_len: usize,
    render_mode: RenderMode,
    model_index: u32,
) -> Model<B> {
    Model {
        vertex_buffer,
        index_buffer,
        vertex_count: vertex_len as u32,
        index_count: index_len as u32,
        render_mode,
        model_index,
    }
}

impl<B> Model<B> {
    /// A model over the given buffers, holding `vertex_len` vertices and
    /// `index_len` indices (counts are kept as 32-bit values).
    pub fn new(
        vertex_buffer: B,
        index_buffer: B,
        vertex_len: usize,
        index_len: usize,
        render_mode: RenderMode,
        model_index: u32,
    ) -> (r: Self)
        ensures
            r == model_of(vertex_buffer, index_buffer, vertex_len, index_len, render_mode, model_index),
            r.vertex_buffer == vertex_buffer,
            r.index_buffer == index_buffer,
            r.vertex_count == vertex_len as u32,
            r.index_count == index_len as u32,
            r.render_mode == render_mode,
            r.model_index == model_index,
    {
        Model {
            vertex_buffer,
            index_buffer,
            vertex_count: vertex_len as u32,
            index_count: index_len as u32,
            render_mode,
            model_index,
        }
    }
}

/// An indirect draw command as laid out in the GPU buffer.
#[derive(Clone, Copy, Debug, PartialEq, Eq, Structural)]
pub struct DrawArgs {
    pub vertex_count: u32,
    pub instance_count: u32,
    pub first_vertex: u32,
    pub first_instance: u32,
}

/// An indirect draw command and where it goes in the indirect buffer.
#[derive(Clone, Copy, Debug, PartialEq, Eq, Structural)]
pub struct IndirectUpload {
    pub offset: u64,
    pub args: DrawArgs,
}

/// The GPU writes that register a model: its transform and bounding sphere at
/// these byte offsets, and, for GPU-driven models, an indirect command.
#[derive(Clone, Copy, Debug, PartialEq, Eq, Structural)]
pub struct ModelUpload {
    pub transform_offset: u64,
    pub bounds_offset: u64,
    pub indirect: Option<IndirectUpload>,
}

/// The writes that register model `index` with `index_len` indices.
pub open spec fn upload_plan(index: int, render_mode: RenderMode, index_len: usize) -> ModelUpload {
    ModelUpload {
        transform_offset: (index * TRANSFORM_BYTES) as u64,
        bounds_offset: (index * BOUNDING_SPHERE_BYTES) as u64,
        indirect: if render_mode == RenderMode::GpuDriven {
            Some(
                IndirectUpload {
                    offset: (index * DRAW_ARGS_BYTES) as u64,
                    args: DrawArgs {
                        vertex_count: index_len as u32,
                        instance_count: 1,
                        first_vertex: 0,
                        first_instance: 0,
                    },
                },
            )
        } else {
            None
        },
    }
}

/// Byte sizes of the transform, bounding sphere and indirect buffers of a pool
/// of `max_models` records.
pub open spec fn pool_sizes(max_models: int) -> (u64, u64, u64) {
    (
        (max_models * TRANSFORM_BYTES) as u64,
        (max_models * BOUNDING_SPHERE_BYTES) as u64,
        (max_models * DRAW_ARGS_BYTES) as u64,
    )
}

/// The per-model GPU records (buffers of type `B`, culling pipeline of type
/// `P`) and the record slots that are free for reuse.
pub struct GpuDrivenPool<B, P> {
    pub transform_buffer: B,
    pub bounding_spheres: B,
    pub indirect_buffer: B,
    pub culling_pipeline: Option<P>,
    pub free_slots: Vec<u32>,
}

impl<B, P> GpuDrivenPool<B, P> {
    /// Byte sizes of the transform, bounding sphere and indirect buffers for
    /// `max_models` records.
    pub fn buffer_sizes(max_models: usize) -> (r: (u64, u64, u64))
        requires
            max_models * TRANSFORM_BYTES <= usize::MAX,
        ensures
            r == pool_sizes(max_models as int),
            r.0 == max_models * TRANSFORM_BYTES,
            r.1 == max_models * BOUNDING_SPHERE_BYTES,
            r.2 == max_models * DRAW_ARGS_BYTES,
    {
        (
            (max_models * TRANSFORM_BYTES) as u64,
            (max_models * BOUNDING_SPHERE_BYTES) as u64,
            (max_models * DRAW_ARGS_BYTES) as u64,
        )
    }

    /// A pool over the given buffers, without a culling pipeline and with no
    /// free slots.
    pub fn new(transform_buffer: B, bounding_spheres: B, indirect_buffer: B) -> (r: Self)
        ensures
            r.transform_buffer == transform_buffer,
            r.bounding_spheres == bounding_spheres,
            r.indirect_buffer == indirect_buffer,
            r.culling_pipeline is None,
            r.free_slots@ == Seq::<u32>::empty(),
    {
        GpuDrivenPool {
            transform_buffer,
            bounding_spheres,
            indirect_buffer,
            culling_pipeline: None,
            free_slots: Vec::new(),
        }
    }

    /// Takes the most recently freed slot. Growing the pool is not supported,
    /// so a slot must be free.
    pub fn alloc_slot(&mut self) -> (slot: u32)
        requires
            old(self).free_slots.len() > 0,
        ensures
            slot == old(self).free_slots@.last(),
            final(self).free_slots@ == old(self).free_slots@.drop_last(),
            final(self).transform_buffer == old(self).transform_buffer,
            final(self).bounding_spheres == old(self).bounding_spheres,
            final(self).indirect_buffer == old(self).indirect_buffer,
            final(self).culling_pipeline == old(self).culling_pipeline,
    {
        self.free_slots.pop().unwrap()
    }

    /// Returns `slot` to the pool.
    pub fn free(&mut self, slot: u32)
        ensures
            final(self).free_slots@ == old(self).free_slots@.push(slot),
            final(self).transform_buffer == old(self).transform_buffer,
            final(self).bounding_spheres == old(self).bounding_spheres,
            final(self).indirect_buffer == old(self).indirect_buffer,
            final(self).culling_pipeline == old(self).culling_pipeline,
    {
        self.free_slots.push(slot);
    }
}

/// The models of a scene, their GPU record pool, and the depth target
/// (texture of type `T`, view of type `V`) they are drawn against.
pub struct ModelSystem<B, P, T, V> {
    pub models: Vec<Option<Model<B>>>,
    pub gpu_driven: GpuDrivenPool<B, P>,
    pub depth_texture: T,
    pub depth_view: V,
}

impl<B, P, T, V> ModelSystem<B, P, T, V> {
    /// Every model stored at position `i` carries `i` as its model index.
    pub open spec fn wf(&self) -> bool {
        forall|i: int|
            0 <= i < self.models@.len() ==> (#[trigger] self.models@[i] matches Some(m) ==> m.model_index
                == i as u32)
    }

    /// An empty model system over the given pool and depth target.
    pub fn new(gpu_driven: GpuDrivenPool<B, P>, depth_texture: T, depth_view: V) -> (r: Self)
        ensures
            r.wf(),
            r.models@ == Seq::<Option<Model<B>>>::empty(),
            r.gpu_driven == gpu_driven,
            r.depth_texture == depth_texture,
            r.depth_view == depth_view,
    {
        ModelSystem { models: Vec::new(), gpu_driven, depth_texture, depth_view }
    }

    /// Appends a model with the given geometry; returns its index (the number
    /// of models before it) and the GPU writes that register it. The pool
    /// holds `MAX_MODELS` records, so there must be room for one more.
    pub fn add_model(
        &mut self,
        vertex_buffer: B,
        index_buffer: B,
        vertex_len: usize,
        index_len: usize,
        render_mode: RenderMode,
    ) -> (r: (usize, ModelUpload))
        requires
            old(self).models.len() < MAX_MODELS,
        ensures
            r.0 == old(self).models.len(),
            final(self).models@ == old(self).models@.push(
                Some(model_of(vertex_buffer, index_buffer, vertex_len, index_len, render_mode, r.0 as u32)),
            ),
            r.1 == upload_plan(r.0 as int, render_mode, index_len),
            final(self).models@.len() == old(self).models@.len() + 1,
            final(self).models@.last() matches Some(m) && {
                &&& m.vertex_buffer == vertex_buffer
                &&& m.index_buffer == index_buffer
                &&& m.vertex_count == vertex_len as u32
                &&& m.index_count == index_len as u32
                &&& m.render_mode == render_mode
                &&& m.model_index == r.0 as u32
            },
            forall|i: int| 0 <= i < old(self).models@.len() ==> final(self).models@[i] == old(self).models@[i],
            r.1.transform_offset == r.0 * TRANSFORM_BYTES,
            r.1.bounds_offset == r.0 * BOUNDING_SPHERE_BYTES,
            render_mode == RenderMode::CpuDriven ==> r.1.indirect is None,
            render_mode == RenderMode::GpuDriven ==> (r.1.indirect matches Some(u) && u.offset == r.0
                * DRAW_ARGS_BYTES && u.args == (DrawArgs {
                vertex_count: index_len as u32,
                instance_count: 1,
                first_vertex: 0,
                first_instance: 0,
            })),
            old(self).wf() ==> final(self).wf(),
            final(self).gpu_driven == old(self).gpu_driven,
            final(self).depth_texture == old(self).depth_texture,
            final(self).depth_view == old(self).depth_view,
    {
        let index = self.models.len();
        let model = Model::new(vertex_buffer, index_buffer, vertex_len, index_len, render_mode, index as u32);
        self.models.push(Some(model));
        let indirect = if render_mode == RenderMode::GpuDriven {
            Some(
                IndirectUpload {
                    offset: (index * DRAW_ARGS_BYTES) as u64,
                    args: DrawArgs {
                        vertex_count: index_len as u32,
                        instance_count: 1,
                        first_vertex: 0,
                        first_instance: 0,
                    },
                },
            )
        } else {
            None
        };
        let upload = ModelUpload {
            transform_offset: (index * TRANSFORM_BYTES) as u64,
            bounds_offset: (index * BOUNDING_SPHERE_BYTES) as u64,
            indirect,
        };
        (index, upload)
    }
}

/// A model built from its parts keeps each of them: its buffers, its element
/// counts (as 32-bit values), its render mode and its index.
pub proof fn lemma_model_keeps_its_parts<B>(
    vertex_buffer: B,
    index_buffer: B,
    vertex_len: usize,
    index_len: usize,
    render_mode: RenderMode,
    model_index: u32,
)
    ensures
        model_of(vertex_buffer, index_buffer, vertex_len, index_len, render_mode, model_index).vertex_buffer
            == vertex_buffer,
        model_of(vertex_buffer, index_buffer, vertex_len, index_len, render_mode, model_index).index_buffer
            == index_buffer,
        model_of(vertex_buffer, index_buffer, vertex_len, index_len, render_mode, model_index).vertex_count
            == vertex_len as u32,
        model_of(vertex_buffer, index_buffer, vertex_len, index_len, render_mode, model_index).index_count
            == index_len as u32,
        model_of(vertex_buffer, index_buffer, vertex_len, index_len, render_mode, model_index).render_mode
            == render_mode,
        model_of(vertex_buffer, index_buffer, vertex_len, index_len, render_mode, model_index).model_index
            == model_index,
{
}

/// Model `index`'s records sit at `index` times the record size in each
/// buffer; a GPU-driven model gets one indirect command that draws all its
/// indices as a single instance from the start (first vertex and first
/// instance zero, so no optional device feature is needed); a CPU-driven
/// model gets none.
pub proof fn lemma_upload_plan_records(index: int, render_mode: RenderMode, index_len: usize)
    requires
        0 <= index < MAX_MODELS,
    ensures
        upload_plan(index, render_mode, index_len).transform_offset == index * TRANSFORM_BYTES,
        upload_plan(index, render_mode, index_len).bounds_offset == index * BOUNDING_SPHERE_BYTES,
        render_mode == RenderMode::CpuDriven ==> upload_plan(index, render_mode, index_len).indirect is None,
        render_mode == RenderMode::GpuDriven ==> upload_plan(index, render_mode, index_len).indirect
            == Some(
            IndirectUpload {
                offset: (index * DRAW_ARGS_BYTES) as u64,
                args: DrawArgs {
                    vertex_count: index_len as u32,
                    instance_count: 1,
                    first_vertex: 0,
                    first_instance: 0,
                },
            },
        ),
{
}

/// A slot returned to the pool is the next one handed out, and handing it out
/// leaves the free list as it was before.
pub proof fn lemma_free_then_alloc(free_slots: Seq<u32>, slot: u32)
    ensures
        free_slots.push(slot).len() > 0,
        free_slots.push(slot).last() == slot,
        free_slots.push(slot).drop_last() == free_slots,
{
    assert(free_slots.push(slot).drop_last() =~= free_slots);
}

/// Every record written for a model the pool has room for lies inside the
/// pool's buffers.
pub proof fn lemma_upload_within_pool(index: int, render_mode: RenderMode, index_len: usize)
    requires
        0 <= index < MAX_MODELS,
    ensures
        upload_plan(index, render_mode, index_len).transform_offset + TRANSFORM_BYTES <= pool_sizes(
            MAX_MODELS as int,
        ).0,
        upload_plan(index, render_mode, index_len).bounds_offset + BOUNDING_SPHERE_BYTES <= pool_sizes(
            MAX_MODELS as int,
        ).1,
        upload_plan(index, render_mode, index_len).indirect matches Some(u) ==> u.offset + DRAW_ARGS_BYTES
            <= pool_sizes(MAX_MODELS as int).2,
{
}

} // verus!
