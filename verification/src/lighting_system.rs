//! Bookkeeping of the light slots shared between the CPU and the GPU light
//! buffer: which slot each light lives in and which slots are free again.
use vstd::prelude::*;
use crate::light::TileGrid;

verus! {

/// Every free slot names an existing slot.
pub open spec fn slots_wf<L>(lights: Seq<Option<L>>, free: Seq<u32>) -> bool {
    forall|i: int| 0 <= i < free.len() ==> (#[trigger] free[i] as int) < lights.len()
}

/// The slot the next added light takes: the most recently freed one, else a
/// new slot at the end.
pub open spec fn next_slot<L>(lights: Seq<Option<L>>, free: Seq<u32>) -> u32 {
    if free.len() > 0 {
        free.last()
    } else {
        lights.len() as u32
    }
}

/// The slots after `light` is added.
pub open spec fn lights_after_add<L>(lights: Seq<Option<L>>, free: Seq<u32>, light: L) -> Seq<Option<L>> {
    if free.len() > 0 {
        lights.update(free.last() as int, Some(light))
    } else {
        lights.push(Some(light))
    }
}

/// The free list after a light is added.
pub open spec fn free_after_add(free: Seq<u32>) -> Seq<u32> {
    if free.len() > 0 {
        free.drop_last()
    } else {
        free
    }
}

/// Whether `index` names an existing slot.
pub open spec fn slot_exists<L>(lights: Seq<Option<L>>, index: u32) -> bool {
    (index as int) < lights.len()
}

/// The slots after slot `index` is removed.
pub open spec fn lights_after_remove<L>(lights: Seq<Option<L>>, index: u32) -> Seq<Option<L>> {
    if slot_exists(lights, index) {
        lights.update(index as int, None)
    } else {
        lights
    }
}

/// The free list after slot `index` is removed.
pub open spec fn free_after_remove<L>(lights: Seq<Option<L>>, free: Seq<u32>, index: u32) -> Seq<u32> {
    if slot_exists(lights, index) {
        free.push(index)
    } else {
        free
    }
}

/// The light held in slot `index`, if there is one.
pub open spec fn light_at<L>(lights: Seq<Option<L>>, index: u32) -> Option<L> {
    if slot_exists(lights, index) {
        lights[index as int]
    } else {
        None
    }
}

/// A light that is added can be read back from the slot index `add_light`
/// returns (as long as a new slot index still fits in a `u32`).
pub proof fn lemma_added_light_is_stored<L>(lights: Seq<Option<L>>, free: Seq<u32>, light: L)
    requires
        slots_wf(lights, free),
        free.len() > 0 || lights.len() <= u32::MAX,
    ensures
        light_at(lights_after_add(lights, free, light), next_slot(lights, free)) == Some(light),
{
    if free.len() > 0 {
        assert(free[free.len() - 1] < lights.len());
    }
}

/// Adding a light leaves every other slot as it was.
pub proof fn lemma_add_keeps_other_slots<L>(lights: Seq<Option<L>>, free: Seq<u32>, light: L, other: u32)
    requires
        slots_wf(lights, free),
        free.len() > 0 || lights.len() <= u32::MAX,
        other != next_slot(lights, free),
    ensures
        light_at(lights_after_add(lights, free, light), other) == light_at(lights, other),
{
    if free.len() > 0 {
        assert(free[free.len() - 1] < lights.len());
    }
}

/// After slot `index` is removed, it holds no light.
pub proof fn lemma_removed_slot_is_empty<L>(lights: Seq<Option<L>>, index: u32)
    ensures
        light_at(lights_after_remove(lights, index), index) is None,
{
}

/// Removing a slot leaves every other slot as it was.
pub proof fn lemma_remove_keeps_other_slots<L>(lights: Seq<Option<L>>, index: u32, other: u32)
    requires
        other != index,
    ensures
        light_at(lights_after_remove(lights, index), other) == light_at(lights, other),
{
}

/// The slot freed by a removal is the one the next added light takes; the
/// new light is then found there and the free list is as before the removal.
pub proof fn lemma_remove_then_add_reuses_slot<L>(lights: Seq<Option<L>>, free: Seq<u32>, index: u32, light: L)
    requires
        slots_wf(lights, free),
        slot_exists(lights, index),
    ensures
        slots_wf(lights_after_remove(lights, index), free_after_remove(lights, free, index)),
        next_slot(lights_after_remove(lights, index), free_after_remove(lights, free, index)) == index,
        free_after_add(free_after_remove(lights, free, index)) == free,
        light_at(
            lights_after_add(lights_after_remove(lights, index), free_after_remove(lights, free, index), light),
            index,
        ) == Some(light),
{
    let l2 = lights_after_remove(lights, index);
    let f2 = free_after_remove(lights, free, index);
    assert forall|i: int| 0 <= i < f2.len() implies (#[trigger] f2[i] as int) < l2.len() by {
        if i < free.len() {
            assert(f2[i] == free[i]);
        }
    }
    assert(f2.drop_last() =~= free);
}

/// The free list names each empty slot at most once and no occupied slot.
pub open spec fn slots_exact<L>(lights: Seq<Option<L>>, free: Seq<u32>) -> bool {
    &&& slots_wf(lights, free)
    &&& forall|i: int, j: int| 0 <= i < j < free.len() ==> free[i] != free[j]
    &&& forall|i: int| 0 <= i < free.len() ==> lights[#[trigger] free[i] as int] is None
}

/// While the free list is exact, adding a light never overwrites a stored
/// light, and the free list stays exact.
pub proof fn lemma_add_keeps_slots_exact<L>(lights: Seq<Option<L>>, free: Seq<u32>, light: L)
    requires
        slots_exact(lights, free),
        free.len() > 0 || lights.len() <= u32::MAX,
    ensures
        light_at(lights, next_slot(lights, free)) is None,
        slots_exact(lights_after_add(lights, free, light), free_after_add(free)),
{
    let l2 = lights_after_add(lights, free, light);
    let f2 = free_after_add(free);
    if free.len() > 0 {
        let s = free.last();
        assert(free[free.len() - 1] == s);
        assert forall|i: int| 0 <= i < f2.len() implies (#[trigger] f2[i] as int) < l2.len() by {
            assert(f2[i] == free[i]);
        }
        assert forall|i: int| 0 <= i < f2.len() implies l2[#[trigger] f2[i] as int] is None by {
            assert(f2[i] == free[i]);
            assert(free[i] != free[free.len() - 1]);
        }
    } else {
        assert forall|i: int| 0 <= i < f2.len() implies l2[#[trigger] f2[i] as int] is None by {
            assert(f2[i] == free[i]);
        }
    }
}

/// Removing a slot that holds a light keeps the free list exact. (Removing an
/// already empty slot lists it twice.)
pub proof fn lemma_remove_occupied_keeps_slots_exact<L>(lights: Seq<Option<L>>, free: Seq<u32>, index: u32)
    requires
        slots_exact(lights, free),
        light_at(lights, index) is Some,
    ensures
        slots_exact(lights_after_remove(lights, index), free_after_remove(lights, free, index)),
{
    let l2 = lights_after_remove(lights, index);
    let f2 = free_after_remove(lights, free, index);
    assert forall|i: int| 0 <= i < f2.len() implies (#[trigger] f2[i] as int) < l2.len() by {
        if i < free.len() {
            assert(f2[i] == free[i]);
        }
    }
    assert forall|i: int, j: int| 0 <= i < j < f2.len() implies f2[i] != f2[j] by {
        if j == free.len() {
            assert(f2[i] == free[i]);
            assert(lights[free[i] as int] is None);
        } else {
            assert(f2[i] == free[i]);
            assert(f2[j] == free[j]);
        }
    }
    assert forall|i: int| 0 <= i < f2.len() implies l2[#[trigger] f2[i] as int] is None by {
        if i < free.len() {
            assert(f2[i] == free[i]);
        }
    }
}

/// The lighting system: GPU resources of type `B` (buffers), `P` (compute
/// pipeline) and `G` (bind groups), the culling grid, and the CPU copy of the
/// lights in their slots.
pub struct LightingSystem<B, P, G, L> {
    pub light_buffer: B,
    pub light_grid: B,
    pub light_index_count: B,
    pub light_culling_pipeline: P,
    pub light_culling_bind_group: G,
    pub light_bind_group: G,
    pub num_tiles_x: u32,
    pub num_tiles_y: u32,
    pub lights: Vec<Option<L>>,
    pub free_slots: Vec<u32>,
}

impl<B, P, G, L> LightingSystem<B, P, G, L> {
    /// The slot table is consistent: every free slot exists.
    pub open spec fn wf(&self) -> bool {
        slots_wf(self.lights@, self.free_slots@)
    }

    /// The GPU resources and the culling grid are those of `other`.
    pub open spec fn same_resources(&self, other: &Self) -> bool {
        &&& self.light_buffer == other.light_buffer
        &&& self.light_grid == other.light_grid
        &&& self.light_index_count == other.light_index_count
        &&& self.light_culling_pipeline == other.light_culling_pipeline
        &&& self.light_culling_bind_group == other.light_culling_bind_group
        &&& self.light_bind_group == other.light_bind_group
        &&& self.num_tiles_x == other.num_tiles_x
        &&& self.num_tiles_y == other.num_tiles_y
    }

    /// A lighting system over the given resources, with no lights and the
    /// culling grid of `grid`.
    pub fn new(
        light_buffer: B,
        light_grid: B,
        light_index_count: B,
        light_culling_pipeline: P,
        light_culling_bind_group: G,
        light_bind_group: G,
        grid: &TileGrid,
    ) -> (r: Self)
        ensures
            r.wf(),
            slots_exact(r.lights@, r.free_slots@),
            r.light_buffer == light_buffer,
            r.light_grid == light_grid,
            r.light_index_count == light_index_count,
            r.light_culling_pipeline == light_culling_pipeline,
            r.light_culling_bind_group == light_culling_bind_group,
            r.light_bind_group == light_bind_group,
            r.num_tiles_x == grid.tiles_x,
            r.num_tiles_y == grid.tiles_y,
            r.lights@ == Seq::<Option<L>>::empty(),
            r.free_slots@ == Seq::<u32>::empty(),
    {
        LightingSystem {
            light_buffer,
            light_grid,
            light_index_count,
            light_culling_pipeline,
            light_culling_bind_group,
            light_bind_group,
            num_tiles_x: grid.tiles_x,
            num_tiles_y: grid.tiles_y,
            lights: Vec::new(),
            free_slots: Vec::new(),
        }
    }

    /// Stores `light` in a slot and returns the slot's index: the most recently
    /// freed slot if there is one, else a new slot at the end.
    pub fn add_light(&mut self, light: L) -> (index: u32)
        requires
            old(self).wf(),
        ensures
            final(self).wf(),
            index == next_slot(old(self).lights@, old(self).free_slots@),
            final(self).lights@ == lights_after_add(old(self).lights@, old(self).free_slots@, light),
            final(self).free_slots@ == free_after_add(old(self).free_slots@),
            old(self).free_slots@.len() > 0 ==> {
                &&& index == old(self).free_slots@[old(self).free_slots@.len() - 1]
                &&& final(self).lights@ == old(self).lights@.update(index as int, Some(light))
                &&& final(self).free_slots@ == old(self).free_slots@.subrange(
                    0,
                    old(self).free_slots@.len() - 1,
                )
            },
            old(self).free_slots@.len() == 0 ==> {
                &&& index == old(self).lights@.len() as u32
                &&& final(self).lights@ == old(self).lights@.push(Some(light))
                &&& final(self).free_slots@ == old(self).free_slots@
            },
            (old(self).free_slots@.len() > 0 || old(self).lights@.len() <= u32::MAX) ==> {
                &&& (index as int) < final(self).lights@.len()
                &&& final(self).lights@[index as int] == Some(light)
            },
            final(self).same_resources(old(self)),
    {
        match self.free_slots.pop() {
            Some(slot) => {
                self.lights.set(slot as usize, Some(light));
                slot
            },
            None => {
                self.lights.push(Some(light));
                (self.lights.len() - 1) as u32
            },
        }
    }

    /// Empties slot `index` and frees it for reuse; returns whether the slot
    /// exists (nothing changes when it does not).
    pub fn remove_light(&mut self, index: u32) -> (removed: bool)
        requires
            old(self).wf(),
        ensures
            final(self).wf(),
            removed == slot_exists(old(self).lights@, index),
            final(self).lights@ == lights_after_remove(old(self).lights@, index),
            final(self).free_slots@ == free_after_remove(old(self).lights@, old(self).free_slots@, index),
            removed == ((index as int) < old(self).lights@.len()),
            removed ==> final(self).lights@ == old(self).lights@.update(index as int, None)
                && final(self).free_slots@ == old(self).free_slots@.push(index),
            !removed ==> final(self).lights@ == old(self).lights@ && final(self).free_slots@ == old(
                self,
            ).free_slots@,
            final(self).same_resources(old(self)),
    {
        let i = index as usize;
        if i < self.lights.len() {
            self.lights.set(i, None);
            self.free_slots.push(index);
            true
        } else {
            false
        }
    }

    /// The light in slot `index`, if that slot exists and holds one.
    pub fn get_light(&self, index: u32) -> (r: Option<&L>)
        ensures
            r matches Some(l) ==> light_at(self.lights@, index) == Some(*l),
            r is None ==> light_at(self.lights@, index) is None,
            r matches Some(l) ==> (index as int) < self.lights@.len() && self.lights@[index as int] == Some(
                *l,
            ),
            r is None ==> (index as int) >= self.lights@.len() || self.lights@[index as int] is None,
    {
        let i = index as usize;
        if i < self.lights.len() {
            match &self.lights[i] {
                Some(l) => Some(l),
                None => None,
            }
        } else {
            None
        }
    }

    /// Mutable access to the light in slot `index`, if that slot exists and
    /// holds one; what is written through it lands in that slot.
    pub fn get_light_mut(&mut self, index: u32) -> (r: Option<&mut L>)
        ensures
            match r {
                Some(l) => {
                    &&& light_at(old(self).lights@, index) == Some(*l)
                    &&& final(self).lights@ == old(self).lights@.update(index as int, Some(*final(l)))
                },
                None => {
                    &&& light_at(old(self).lights@, index) is None
                    &&& final(self).lights@ == old(self).lights@
                },
            },
            r matches Some(l) ==> (index as int) < old(self).lights@.len() && old(self).lights@[index as int]
                == Some(*l),
            r is None ==> ((index as int) >= old(self).lights@.len() || old(self).lights@[index as int] is None)
                && final(self).lights@ == old(self).lights@,
            final(self).free_slots@ == old(self).free_slots@,
            final(self).same_resources(old(self)),
    {
        let i = index as usize;
        if i < self.lights.len() {
            match &mut self.lights[i] {
                Some(l) => Some(l),
                None => None,
            }
        } else {
            None
        }
    }

    /// Workgroup counts of the light culling pass: one workgroup per tile.
    pub fn culling_dispatch(&self) -> (r: (u32, u32, u32))
        ensures
            r == (self.num_tiles_x, self.num_tiles_y, 1u32),
    {
        (self.num_tiles_x, self.num_tiles_y, 1)
    }
}

} // verus!
