use vstd::prelude::*;
use vstd::seq_lib::*;
use vstd::set_lib::*;

use crate::entity::Entity;
use crate::sparse_set::SparseSet;

verus! {

/// The entity/component store.
///
/// The world owns the entity allocator (slot generations, free list and live
/// count), one sparse-set component storage per component kind, and the
/// singleton resource registry. Component and resource kinds are small
/// runtime indices chosen by the caller, one per component or resource type
/// (typically the discriminant of an application-level enum), so a mismatch
/// between a kind and the stored value's type is impossible by construction:
/// every storage holds the same value type `C` and every resource the same
/// value type `R`.
pub struct World<C, R> {
    /// Slot index -> current generation.
    generations: Vec<u32>,
    /// Slot indices available for reuse; the most recently freed is reused
    /// first.
    free_indices: Vec<u32>,
    /// One sparse set per component kind, created lazily.
    storages: Vec<SparseSet<C>>,
    /// At most one resource per resource kind.
    resources: Vec<Option<R>>,
    /// Number of live entities.
    entity_count: usize,
}

impl<C, R> World<C, R> {
    /// Per-slot generations.
    pub closed spec fn spec_generations(self) -> Seq<u32> {
        self.generations@
    }

    /// Slot indices currently free for reuse, oldest first.
    pub closed spec fn spec_free_indices(self) -> Seq<u32> {
        self.free_indices@
    }

    /// The component storages, by kind.
    pub closed spec fn spec_storages(self) -> Seq<SparseSet<C>> {
        self.storages@
    }

    /// The resource registry, by kind.
    pub closed spec fn spec_resources(self) -> Seq<Option<R>> {
        self.resources@
    }

    /// Number of live entities.
    pub closed spec fn spec_entity_count(self) -> int {
        self.entity_count as int
    }

    /// An entity is alive iff its slot exists and the slot's current
    /// generation equals the entity's generation.
    pub open spec fn spec_is_alive(self, e: Entity) -> bool {
        (e.index as int) < self.spec_generations().len() && self.spec_generations()[e.index as int]
            == e.generation
    }

    /// Whether slot `index` is on the free list.
    pub open spec fn spec_slot_free(self, index: u32) -> bool {
        self.spec_free_indices().contains(index)
    }

    /// An entity issued by `spawn` and not yet despawned: its generation
    /// matches and its slot is occupied. For every handle this world ever
    /// issued the two conditions agree; only a forged handle naming a freed
    /// slot's current generation can tell them apart.
    pub open spec fn spec_live(self, e: Entity) -> bool {
        self.spec_is_alive(e) && !self.spec_slot_free(e.index)
    }

    /// Number of component kinds with (lazily created) storage.
    pub open spec fn spec_storage_count(self) -> int {
        self.spec_storages().len() as int
    }

    /// Whether entity index `i` has a component of kind `kind`.
    pub open spec fn spec_has_component(self, kind: int, i: int) -> bool {
        0 <= kind < self.spec_storages().len() && self.spec_storages()[kind].spec_contains(i)
    }

    /// The component of kind `kind` stored for entity index `i`.
    pub open spec fn spec_component(self, kind: int, i: int) -> C {
        self.spec_storages()[kind].spec_at(i)
    }

    /// Owning entity indices of kind `kind`'s dense storage, in dense order.
    pub open spec fn spec_storage_entities(self, kind: int) -> Seq<u32> {
        self.spec_storages()[kind].entities_view()
    }

    /// The resource of kind `kind`, if present.
    pub open spec fn spec_resource(self, kind: int) -> Option<R> {
        if 0 <= kind < self.spec_resources().len() {
            self.spec_resources()[kind]
        } else {
            None
        }
    }

    /// `self` agrees with `other` on the allocator, the resources, and on
    /// every component except the one of kind `kind` on entity index
    /// `index`.
    pub open spec fn same_except_component(self, other: World<C, R>, kind: int, index: int) -> bool {
        &&& self.spec_generations() == other.spec_generations()
        &&& self.spec_free_indices() == other.spec_free_indices()
        &&& self.spec_entity_count() == other.spec_entity_count()
        &&& self.spec_resources() == other.spec_resources()
        &&& self.spec_storage_count() == other.spec_storage_count()
        &&& forall|k: int, i: int|
            !(k == kind && i == index) ==> self.spec_has_component(k, i)
                == other.spec_has_component(k, i)
        &&& forall|k: int, i: int|
            !(k == kind && i == index) && other.spec_has_component(k, i)
                ==> self.spec_component(k, i) == other.spec_component(k, i)
    }

    /// Structural invariant of the whole store:
    /// - at most `u32::MAX` slots, so indices fit in `u32`;
    /// - the free list names existing slots, without duplicates;
    /// - the live count is exactly "slots minus free slots";
    /// - each storage is a well-formed sparse set;
    /// - no storage holds data for a freed or nonexistent slot (despawn
    ///   removes components before freeing the slot).
    pub closed spec fn wf(self) -> bool {
        &&& self.generations@.len() <= u32::MAX as int
        &&& forall|i: int|
            0 <= i < self.free_indices@.len() ==> (#[trigger] self.free_indices@[i])
                < self.generations@.len()
        &&& self.free_indices@.no_duplicates()
        &&& self.free_indices@.len() <= self.generations@.len()
        &&& self.entity_count == self.generations@.len() - self.free_indices@.len()
        &&& forall|k: int| 0 <= k < self.storages@.len() ==> (#[trigger] self.storages@[k]).wf()
        &&& forall|k: int, i: int|
            0 <= k < self.storages@.len() && (#[trigger] self.storages@[k].spec_contains(i)) ==> {
                &&& 0 <= i < self.generations@.len()
                &&& !self.free_indices@.contains(i as u32)
            }
    }

    /// Create a new, empty world.
    pub fn new() -> (w: World<C, R>)
        ensures
            w.wf(),
            w.spec_entity_count() == 0,
            w.spec_generations().len() == 0,
            w.spec_free_indices().len() == 0,
            w.spec_storage_count() == 0,
            w.spec_resources().len() == 0,
            forall|e: Entity| !w.spec_is_alive(e),
            forall|kind: int| w.spec_resource(kind) is None,
    {
        World {
            generations: Vec::new(),
            free_indices: Vec::new(),
            storages: Vec::new(),
            resources: Vec::new(),
            entity_count: 0,
        }
    }

    /// Check whether an entity is alive: its slot exists and the slot's
    /// generation still equals the entity's generation.
    pub fn is_alive(&self, entity: Entity) -> (r: bool)
        ensures
            r == self.spec_is_alive(entity),
    {
        let idx = entity.index as usize;
        idx < self.generations.len() && self.generations[idx] == entity.generation
    }

    /// Number of live entities.
    pub fn entity_count(&self) -> (n: usize)
        ensures
            n as int == self.spec_entity_count(),
    {
        self.entity_count
    }

    /// Whether slot `index` is currently on the free list.
    fn slot_is_free(&self, index: u32) -> (r: bool)
        ensures
            r == self.spec_slot_free(index),
    {
        let mut i: usize = 0;
        while i < self.free_indices.len()
            invariant
                i <= self.free_indices@.len(),
                forall|j: int| 0 <= j < i ==> self.free_indices@[j] != index,
            decreases self.free_indices@.len() - i,
        {
            if self.free_indices[i] == index {
                return true;
            }
            i = i + 1;
        }
        false
    }

    /// Spawn a new entity: reuse the most recently freed slot if one exists
    /// (with that slot's current generation), otherwise append a fresh slot
    /// with generation 0. The new entity is live and carries no components.
    pub fn spawn(&mut self) -> (e: Entity)
        requires
            old(self).wf(),
            old(self).spec_generations().len() < u32::MAX as int,
        ensures
            final(self).wf(),
            final(self).spec_live(e),
            final(self).spec_entity_count() == old(self).spec_entity_count() + 1,
            final(self).spec_storages() == old(self).spec_storages(),
            final(self).spec_resources() == old(self).spec_resources(),
            forall|k: int| !final(self).spec_has_component(k, e.index as int),
            // Slot generations never decrease; existing slots are untouched.
            forall|i: int|
                0 <= i < old(self).spec_generations().len() ==> final(self).spec_generations()[i]
                    == old(self).spec_generations()[i],
            // Liveness of every other entity is unchanged.
            forall|e2: Entity|
                e2.index != e.index ==> final(self).spec_is_alive(e2) == old(self).spec_is_alive(
                    e2,
                ),
            // The most recently freed slot is reused first; otherwise a new
            // generation-0 slot is appended.
            old(self).spec_free_indices().len() > 0 ==> {
                &&& e.index == old(self).spec_free_indices().last()
                &&& e.generation == old(self).spec_generations()[e.index as int]
                &&& final(self).spec_generations() == old(self).spec_generations()
                &&& final(self).spec_free_indices() == old(self).spec_free_indices().drop_last()
            },
            old(self).spec_free_indices().len() == 0 ==> {
                &&& e.index as int == old(self).spec_generations().len()
                &&& e.generation == 0
                &&& final(self).spec_generations() == old(self).spec_generations().push(0u32)
                &&& final(self).spec_free_indices() == old(self).spec_free_indices()
            },
    {
        self.entity_count = self.entity_count + 1;

        match self.free_indices.pop() {
            Some(index) => {
                let generation = self.generations[index as usize];
                proof {
                    let of = old(self).free_indices@;
                    assert(of.contains(index)) by {
                        assert(of[of.len() - 1] == index);
                    }
                    // The reused slot holds no components: it was free, and
                    // no storage keeps data for a free slot.
                    assert forall|k: int|
                        0 <= k < self.storages@.len() implies !self.storages@[k].spec_contains(
                        index as int,
                    ) by {
                        if self.storages@[k].spec_contains(index as int) {
                            assert(!of.contains(index));
                        }
                    }
                    // Everything still free was already free before.
                    assert forall|k: int, i: int|
                        0 <= k < self.storages@.len() && (
                        #[trigger] self.storages@[k].spec_contains(i)) implies {
                        &&& 0 <= i < self.generations@.len()
                        &&& !self.free_indices@.contains(i as u32)
                    } by {
                        if self.free_indices@.contains(i as u32) {
                            let w = choose|w: int|
                                0 <= w < self.free_indices@.len() && self.free_indices@[w]
                                    == i as u32;
                            assert(of[w] == i as u32);
                            assert(of.contains(i as u32));
                        }
                    }
                    // The popped index is no longer free, so the entity is live.
                    assert(!self.free_indices@.contains(index)) by {
                        if self.free_indices@.contains(index) {
                            let w = choose|w: int|
                                0 <= w < self.free_indices@.len() && self.free_indices@[w] == index;
                            assert(of[w] == index && of[of.len() - 1] == index && w != of.len()
                                - 1);
                        }
                    }
                }
                Entity { index, generation }
            },
            None => {
                let index = self.generations.len() as u32;
                self.generations.push(0);
                proof {
                    assert forall|k: int, i: int|
                        0 <= k < self.storages@.len() && (
                        #[trigger] self.storages@[k].spec_contains(i)) implies {
                        &&& 0 <= i < self.generations@.len()
                        &&& !self.free_indices@.contains(i as u32)
                    } by {
                        assert(0 <= i < old(self).generations@.len());
                    }
                    assert forall|k: int|
                        0 <= k < self.storages@.len() implies !self.storages@[k].spec_contains(
                        index as int,
                    ) by {
                        if self.storages@[k].spec_contains(index as int) {
                            assert((index as int) < old(self).generations@.len());
                        }
                    }
                }
                Entity { index, generation: 0 }
            },
        }
    }

    /// Despawn an entity. Returns `false` without changing anything if the
    /// entity is not live (a stale handle is a safe no-op). Otherwise every
    /// storage first drops the entity's component — so no sparse set ever
    /// retains data for a dead slot — and only then is the slot's generation
    /// bumped and the slot pushed onto the free list.
    pub fn despawn(&mut self, entity: Entity) -> (r: bool)
        requires
            old(self).wf(),
            old(self).spec_live(entity) ==> entity.generation < u32::MAX,
        ensures
            final(self).wf(),
            r == old(self).spec_live(entity),
            !r ==> *final(self) == *old(self),
            r ==> {
                &&& final(self).spec_generations() == old(self).spec_generations().update(
                    entity.index as int,
                    (entity.generation + 1) as u32,
                )
                &&& final(self).spec_free_indices() == old(self).spec_free_indices().push(
                    entity.index,
                )
                &&& final(self).spec_entity_count() == old(self).spec_entity_count() - 1
                &&& !final(self).spec_is_alive(entity)
                &&& final(self).spec_storage_count() == old(self).spec_storage_count()
                &&& forall|k: int| !final(self).spec_has_component(k, entity.index as int)
                &&& forall|k: int, i: int|
                    i != entity.index ==> final(self).spec_has_component(k, i) == old(self).spec_has_component(k, i)
                &&& forall|k: int, i: int|
                    i != entity.index && old(self).spec_has_component(k, i) ==> final(self).spec_component(k, i) == old(self).spec_component(k, i)
                &&& forall|e2: Entity|
                    e2.index != entity.index ==> final(self).spec_is_alive(e2) == old(self).spec_is_alive(e2)
                &&& final(self).spec_resources() == old(self).spec_resources()
            },
    {
        if !self.is_alive(entity) {
            return false;
        }
        if self.slot_is_free(entity.index) {
            // Defensive: a forged handle can carry the current generation of
            // a freed slot; it names no live entity, so this is a no-op.
            return false;
        }

        // Remove the entity's component from every storage first (the
        // despawn ordering invariant).
        let mut k: usize = 0;
        while k < self.storages.len()
            invariant
                old(self).wf(),
                self.generations@ == old(self).generations@,
                self.free_indices@ == old(self).free_indices@,
                self.resources@ == old(self).resources@,
                self.entity_count == old(self).entity_count,
                self.storages@.len() == old(self).storages@.len(),
                k <= self.storages@.len(),
                forall|kk: int|
                    0 <= kk < self.storages@.len() ==> (#[trigger] self.storages@[kk]).wf(),
                forall|kk: int|
                    0 <= kk < k ==> !(#[trigger] self.storages@[kk]).spec_contains(
                        entity.index as int,
                    ),
                forall|kk: int, i: int|
                    0 <= kk < self.storages@.len() && i != entity.index ==> (
                    #[trigger] self.storages@[kk].spec_contains(i)) == old(self).storages@[kk].spec_contains(i),
                forall|kk: int, i: int|
                    0 <= kk < self.storages@.len() && i != entity.index && old(self).storages@[kk].spec_contains(i) ==> (#[trigger] self.storages@[kk].spec_at(i))
                        == old(self).storages@[kk].spec_at(i),
            decreases self.storages@.len() - k,
        {
            let storage = &mut self.storages[k];
            let _ = storage.remove(entity.index);
            k = k + 1;
        }

        // Bump the generation and free the slot.
        let idx = entity.index as usize;
        self.generations[idx] = entity.generation + 1;
        let ghost mid_free = self.free_indices@;
        self.free_indices.push(entity.index);
        proof {
            assert(self.free_indices@.no_duplicates()) by {
                assert(forall|w: int|
                    0 <= w < mid_free.len() ==> mid_free[w] != entity.index && mid_free.contains(
                        mid_free[w],
                    ));
            }
            // The slot being occupied means the free list cannot already
            // cover every slot, so the live count stays positive.
            lemma_distinct_bounded_seq_len(self.free_indices@, self.generations@.len() as int);
        }
        self.entity_count = self.entity_count - 1;

        proof {
            assert forall|k2: int, i: int|
                0 <= k2 < self.storages@.len() && (
                #[trigger] self.storages@[k2].spec_contains(i)) implies {
                &&& 0 <= i < self.generations@.len()
                &&& !self.free_indices@.contains(i as u32)
            } by {
                assert(i != entity.index);
                assert(old(self).storages@[k2].spec_contains(i));
                if self.free_indices@.contains(i as u32) {
                    let w = choose|w: int|
                        0 <= w < self.free_indices@.len() && self.free_indices@[w] == i as u32;
                    assert(w < mid_free.len());
                    assert(mid_free[w] == i as u32);
                    assert(old(self).free_indices@.contains(i as u32));
                }
            }
            assert(final(self).wf());
        }

        true
    }

    /// Attach a component of kind `kind` to an entity. A stale handle is a
    /// silent no-op. If the entity already has a component of this kind the
    /// value is overwritten in place and the storage's size is unchanged.
    pub fn insert(&mut self, entity: Entity, kind: usize, component: C)
        requires
            old(self).wf(),
            kind < usize::MAX,
        ensures
            final(self).wf(),
            !old(self).spec_live(entity) ==> *final(self) == *old(self),
            old(self).spec_live(entity) ==> {
                &&& final(self).spec_has_component(kind as int, entity.index as int)
                &&& final(self).spec_component(kind as int, entity.index as int) == component
                &&& final(self).spec_storage_count() == if old(self).spec_storage_count() > kind
                    as int + 1 {
                    old(self).spec_storage_count()
                } else {
                    kind as int + 1
                }
                &&& forall|k: int, i: int|
                    !(k == kind && i == entity.index) ==> final(self).spec_has_component(k, i)
                        == old(self).spec_has_component(k, i)
                &&& forall|k: int, i: int|
                    !(k == kind && i == entity.index) && old(self).spec_has_component(k, i)
                        ==> final(self).spec_component(k, i) == old(self).spec_component(k, i)
                &&& old(self).spec_has_component(kind as int, entity.index as int) ==> final(self).spec_storage_entities(kind as int) == old(self).spec_storage_entities(
                    kind as int,
                )
                &&& !old(self).spec_has_component(kind as int, entity.index as int) && (kind as int)
                    < old(self).spec_storage_count() ==> final(self).spec_storage_entities(
                    kind as int,
                ) == old(self).spec_storage_entities(kind as int).push(entity.index)
                &&& (kind as int) >= old(self).spec_storage_count() ==> final(self).spec_storage_entities(kind as int) =~= seq![entity.index]
                &&& forall|k: int|
                    old(self).spec_storage_count() <= k < final(self).spec_storage_count() && k
                        != kind ==> final(self).spec_storage_entities(k) =~= Seq::<u32>::empty()
                &&& forall|k: int|
                    0 <= k < old(self).spec_storage_count() && k != kind ==> final(self).spec_storage_entities(k) == old(self).spec_storage_entities(k)
                &&& final(self).spec_generations() == old(self).spec_generations()
                &&& final(self).spec_free_indices() == old(self).spec_free_indices()
                &&& final(self).spec_entity_count() == old(self).spec_entity_count()
                &&& final(self).spec_resources() == old(self).spec_resources()
            },
    {
        if !self.is_alive(entity) {
            return ;
        }
        if self.slot_is_free(entity.index) {
            // Defensive: never store data for a freed slot.
            return ;
        }

        // Create storages lazily up to this kind.
        let ghost old_storages = self.storages@;
        while self.storages.len() < kind + 1
            invariant
                old(self).wf(),
                kind < usize::MAX,
                self.generations@ == old(self).generations@,
                self.free_indices@ == old(self).free_indices@,
                self.resources@ == old(self).resources@,
                self.entity_count == old(self).entity_count,
                old_storages == old(self).storages@,
                old_storages.len() <= self.storages@.len(),
                old_storages.len() < kind + 1 ==> self.storages@.len() <= kind + 1,
                old_storages.len() >= kind + 1 ==> self.storages@.len() == old_storages.len(),
                self.storages@.subrange(0, old_storages.len() as int) == old_storages,
                forall|kk: int|
                    old_storages.len() <= kk < self.storages@.len() ==> (
                    #[trigger] self.storages@[kk]).wf() && self.storages@[kk].entities_view()
                        =~= Seq::<u32>::empty() && forall|i: int|
                        !self.storages@[kk].spec_contains(i),
            decreases kind + 1 - self.storages@.len(),
        {
            self.storages.push(SparseSet::new());
        }
        proof {
            assert(forall|kk: int|
                0 <= kk < old_storages.len() ==> self.storages@[kk] == old_storages[kk]);
            assert((entity.index as int) < old(self).generations@.len());
            if (kind as int) < old_storages.len() {
                assert(old(self).storages@[kind as int].wf());
            }
            assert(self.storages@[kind as int].wf());
        }

        let ghost mid_storages = self.storages@;
        let storage = &mut self.storages[kind];
        storage.insert(entity.index, component);

        proof {
            assert forall|k: int, i: int|
                0 <= k < self.storages@.len() && (
                #[trigger] self.storages@[k].spec_contains(i)) implies {
                &&& 0 <= i < self.generations@.len()
                &&& !self.free_indices@.contains(i as u32)
            } by {
                if k == kind {
                    if i != entity.index {
                        assert(mid_storages[k].spec_contains(i));
                    }
                } else {
                    assert(self.storages@[k] == mid_storages[k]);
                }
                if 0 <= k < old_storages.len() && self.storages@[k] == old_storages[k] {
                    assert(old(self).storages@[k].spec_contains(i) ==> 0 <= i < old(self).generations@.len() && !old(self).free_indices@.contains(i as u32));
                }
            }
            assert forall|k: int|
                0 <= k < self.storages@.len() implies (#[trigger] self.storages@[k]).wf() by {
                if k != kind {
                    assert(self.storages@[k] == mid_storages[k]);
                    if k < old_storages.len() {
                        assert(old(self).storages@[k].wf());
                    }
                }
            }
            if (kind as int) >= old_storages.len() {
                assert(mid_storages[kind as int].entities_view() =~= Seq::<u32>::empty());
                assert(self.storages@[kind as int].entities_view() =~= seq![entity.index]);
            }
            assert forall|k: int|
                old_storages.len() <= k < self.storages@.len() && k != kind implies (
            #[trigger] self.storages@[k]).entities_view() =~= Seq::<u32>::empty() by {
                assert(self.storages@[k] == mid_storages[k]);
            }
            assert(final(self).wf());
        }
    }

    /// Remove and return an entity's component of kind `kind`. Returns
    /// `None`, changing nothing, if the entity is not alive or has no such
    /// component. Removal touches no other entity's component value.
    pub fn remove(&mut self, entity: Entity, kind: usize) -> (r: Option<C>)
        requires
            old(self).wf(),
        ensures
            final(self).wf(),
            r is Some <==> old(self).spec_is_alive(entity) && old(self).spec_has_component(
                kind as int,
                entity.index as int,
            ),
            r is None ==> {
                &&& final(self).same_except_component(*old(self), kind as int, entity.index as int)
                &&& final(self).spec_has_component(kind as int, entity.index as int) == old(self).spec_has_component(kind as int, entity.index as int)
                &&& old(self).spec_has_component(kind as int, entity.index as int) ==> final(self).spec_component(kind as int, entity.index as int) == old(self).spec_component(
                    kind as int,
                    entity.index as int,
                )
            },
            r is Some ==> {
                &&& r == Some(old(self).spec_component(kind as int, entity.index as int))
                &&& !final(self).spec_has_component(kind as int, entity.index as int)
                &&& final(self).same_except_component(*old(self), kind as int, entity.index as int)
                &&& forall|k: int|
                    0 <= k < old(self).spec_storage_count() && k != kind ==> final(self).spec_storage_entities(k) == old(self).spec_storage_entities(k)
            },
            r is None ==> forall|k: int|
                0 <= k < old(self).spec_storage_count() && k != kind ==> final(self).spec_storage_entities(k) == old(self).spec_storage_entities(k),
    {
        if !self.is_alive(entity) {
            return None;
        }
        if kind >= self.storages.len() {
            return None;
        }

        let storage = &mut self.storages[kind];
        let r = storage.remove(entity.index);

        proof {
            if r is None {
                assert(self.storages@ =~= old(self).storages@);
            }
            assert(final(self).wf());
        }

        r
    }

    /// Read an entity's component of kind `kind`. `None` if the entity is
    /// not alive or has no such component.
    pub fn get(&self, entity: Entity, kind: usize) -> (r: Option<&C>)
        requires
            self.wf(),
        ensures
            match r {
                Some(v) => self.spec_is_alive(entity) && self.spec_has_component(
                    kind as int,
                    entity.index as int,
                ) && *v == self.spec_component(kind as int, entity.index as int),
                None => !(self.spec_is_alive(entity) && self.spec_has_component(
                    kind as int,
                    entity.index as int,
                )),
            },
    {
        if !self.is_alive(entity) {
            return None;
        }
        if kind >= self.storages.len() {
            return None;
        }
        self.storages[kind].get(entity.index)
    }

    /// Read an entity's component of kind `kind` mutably. `None` if the
    /// entity is not alive or has no such component; then nothing changes.
    /// Writing through the returned reference changes exactly that one
    /// component value.
    pub fn get_mut(&mut self, entity: Entity, kind: usize) -> (r: Option<&mut C>)
        requires
            old(self).wf(),
        ensures
            (old(self).spec_is_alive(entity) && old(self).spec_has_component(
                kind as int,
                entity.index as int,
            )) ==> {
                &&& r is Some
                &&& *r->0 == old(self).spec_component(kind as int, entity.index as int)
                &&& final(self).wf()
                &&& final(self).spec_has_component(kind as int, entity.index as int)
                &&& final(self).spec_component(kind as int, entity.index as int) == *final(r->0)
                &&& final(self).same_except_component(*old(self), kind as int, entity.index as int)
                &&& final(self).spec_storage_entities(kind as int) == old(self).spec_storage_entities(kind as int)
                &&& forall|k: int|
                    0 <= k < old(self).spec_storage_count() && k != kind ==> final(self).spec_storage_entities(k) == old(self).spec_storage_entities(k)
            },
            !(old(self).spec_is_alive(entity) && old(self).spec_has_component(
                kind as int,
                entity.index as int,
            )) ==> {
                &&& r is None
                &&& final(self).wf()
                &&& final(self).same_except_component(*old(self), kind as int, entity.index as int)
                &&& final(self).spec_has_component(kind as int, entity.index as int) == old(self).spec_has_component(kind as int, entity.index as int)
                &&& old(self).spec_has_component(kind as int, entity.index as int) ==> final(self).spec_component(kind as int, entity.index as int) == old(self).spec_component(
                    kind as int,
                    entity.index as int,
                )
            },
    {
        if !self.is_alive(entity) {
            return None;
        }
        if kind >= self.storages.len() {
            return None;
        }
        let storage = &mut self.storages[kind];
        storage.get_mut(entity.index)
    }

    /// Whether an alive entity has a component of kind `kind`. A stale
    /// handle never has components.
    pub fn has(&self, entity: Entity, kind: usize) -> (r: bool)
        requires
            self.wf(),
        ensures
            r == (self.spec_is_alive(entity) && self.spec_has_component(
                kind as int,
                entity.index as int,
            )),
    {
        if !self.is_alive(entity) {
            return false;
        }
        if kind >= self.storages.len() {
            return false;
        }
        self.storages[kind].contains(entity.index)
    }

    /// The entities that currently have a component of kind `kind`, in the
    /// storage's dense order. If that kind has no storage yet the result is
    /// empty. Each returned handle carries its slot's current generation and
    /// is alive; a handle is included for exactly the entity indices stored
    /// for this kind.
    pub fn query(&self, kind: usize) -> (r: Vec<Entity>)
        requires
            self.wf(),
        ensures
            (kind as int) < self.spec_storage_count() ==> r@.len() == self.spec_storage_entities(
                kind as int,
            ).len(),
            (kind as int) >= self.spec_storage_count() ==> r@.len() == 0,
            forall|d: int|
                0 <= d < r@.len() ==> {
                    &&& (#[trigger] r@[d]).index == self.spec_storage_entities(kind as int)[d]
                    &&& r@[d].generation == self.spec_generations()[r@[d].index as int]
                    &&& self.spec_is_alive(r@[d])
                    &&& self.spec_has_component(kind as int, r@[d].index as int)
                },
            forall|i: int|
                self.spec_has_component(kind as int, i) ==> exists|d: int|
                    0 <= d < r@.len() && (#[trigger] r@[d]).index as int == i,
            forall|d1: int, d2: int|
                0 <= d1 < d2 < r@.len() ==> (#[trigger] r@[d1]).index != (#[trigger] r@[d2]).index,
    {
        let mut r: Vec<Entity> = Vec::new();
        if kind >= self.storages.len() {
            return r;
        }

        let storage = &self.storages[kind];
        proof {
            assert(self.storages@[kind as int].wf());
            storage.lemma_wf_facts();
        }
        let n = storage.len();
        let mut d: usize = 0;
        while d < n
            invariant
                self.wf(),
                (kind as int) < self.storages@.len(),
                *storage == self.storages@[kind as int],
                storage.wf(),
                n == storage.entities_view().len(),
                n == storage.dense_view().len(),
                d <= n,
                r@.len() == d,
                forall|dd: int|
                    0 <= dd < d ==> {
                        &&& (#[trigger] r@[dd]).index == storage.entities_view()[dd]
                        &&& r@[dd].generation == self.spec_generations()[r@[dd].index as int]
                    },
            decreases n - d,
        {
            let entity_index = storage.entity_at(d);
            proof {
                assert(self.storages@[kind as int].spec_contains(entity_index as int));
            }
            let generation = self.generations[entity_index as usize];
            let entity = Entity { index: entity_index, generation };

            // Defensive liveness filter: by the despawn ordering invariant a
            // stored index is never a dead slot, so this check cannot fail,
            // and the verifier proves as much.
            if self.is_alive(entity) {
                r.push(entity);
            }
            d = d + 1;
        }

        proof {
            let s = self.storages@[kind as int];
            s.lemma_wf_facts();
            assert forall|i: int| self.spec_has_component(kind as int, i) implies exists|dd: int|
                0 <= dd < r@.len() && (#[trigger] r@[dd]).index as int == i by {
                let p = s.spec_pos(i);
                assert(s.entities_view()[p] == i as u32);
                assert(r@[p].index as int == i);
            }
            // No entity index appears twice: each listed index points back at
            // its own dense position.
            assert forall|d1: int, d2: int|
                0 <= d1 < d2 < r@.len() implies (#[trigger] r@[d1]).index != (
            #[trigger] r@[d2]).index by {
                assert(s.spec_pos(s.entities_view()[d1] as int) == d1);
                assert(s.spec_pos(s.entities_view()[d2] as int) == d2);
            }
        }

        r
    }

    /// The entities that currently have a component of kind `kind`, for a
    /// mutation pass: iterate the result and mutate each entity's component
    /// through `get_mut`. (Index-based access in place of an aliasing
    /// iterator; the world itself is not changed by this call.)
    pub fn query_mut(&mut self, kind: usize) -> (r: Vec<Entity>)
        requires
            old(self).wf(),
        ensures
            *final(self) == *old(self),
            (kind as int) < old(self).spec_storage_count() ==> r@.len() == old(self).spec_storage_entities(kind as int).len(),
            (kind as int) >= old(self).spec_storage_count() ==> r@.len() == 0,
            forall|d: int|
                0 <= d < r@.len() ==> {
                    &&& (#[trigger] r@[d]).index == old(self).spec_storage_entities(kind as int)[d]
                    &&& r@[d].generation == old(self).spec_generations()[r@[d].index as int]
                    &&& old(self).spec_is_alive(r@[d])
                    &&& old(self).spec_has_component(kind as int, r@[d].index as int)
                },
            forall|i: int|
                old(self).spec_has_component(kind as int, i) ==> exists|d: int|
                    0 <= d < r@.len() && (#[trigger] r@[d]).index as int == i,
            forall|d1: int, d2: int|
                0 <= d1 < d2 < r@.len() ==> (#[trigger] r@[d1]).index != (#[trigger] r@[d2]).index,
    {
        self.query(kind)
    }

    /// Store the single resource of kind `kind`, overwriting any previous
    /// value of that kind. Entities and components are untouched.
    pub fn insert_resource(&mut self, kind: usize, resource: R)
        requires
            old(self).wf(),
            kind < usize::MAX,
        ensures
            final(self).wf(),
            final(self).spec_resource(kind as int) == Some(resource),
            forall|k: int| k != kind ==> final(self).spec_resource(k) == old(self).spec_resource(k),
            final(self).spec_generations() == old(self).spec_generations(),
            final(self).spec_free_indices() == old(self).spec_free_indices(),
            final(self).spec_entity_count() == old(self).spec_entity_count(),
            final(self).spec_storages() == old(self).spec_storages(),
    {
        let ghost old_resources = self.resources@;
        while self.resources.len() < kind + 1
            invariant
                kind < usize::MAX,
                self.generations@ == old(self).generations@,
                self.free_indices@ == old(self).free_indices@,
                self.storages@ == old(self).storages@,
                self.entity_count == old(self).entity_count,
                old_resources == old(self).resources@,
                old_resources.len() <= self.resources@.len(),
                old_resources.len() < kind + 1 ==> self.resources@.len() <= kind + 1,
                old_resources.len() >= kind + 1 ==> self.resources@.len() == old_resources.len(),
                self.resources@.subrange(0, old_resources.len() as int) == old_resources,
                forall|k: int|
                    old_resources.len() <= k < self.resources@.len() ==> self.resources@[k]
                        is None,
            decreases kind + 1 - self.resources@.len(),
        {
            self.resources.push(None);
        }
        proof {
            assert(forall|k: int|
                0 <= k < old_resources.len() ==> self.resources@[k] == old_resources[k]);
        }
        self.resources[kind] = Some(resource);
    }

    /// Read the resource of kind `kind`, if present.
    pub fn get_resource(&self, kind: usize) -> (r: Option<&R>)
        ensures
            match r {
                Some(v) => self.spec_resource(kind as int) == Some(*v),
                None => self.spec_resource(kind as int) is None,
            },
    {
        if kind < self.resources.len() {
            self.resources[kind].as_ref()
        } else {
            None
        }
    }

    /// Read the resource of kind `kind` mutably, if present; then writing
    /// through the returned reference changes exactly that resource.
    pub fn get_resource_mut(&mut self, kind: usize) -> (r: Option<&mut R>)
        requires
            old(self).wf(),
        ensures
            old(self).spec_resource(kind as int) is Some ==> {
                &&& r is Some
                &&& Some(*r->0) == old(self).spec_resource(kind as int)
                &&& final(self).wf()
                &&& final(self).spec_resource(kind as int) == Some(*final(r->0))
                &&& forall|k: int|
                    k != kind ==> final(self).spec_resource(k) == old(self).spec_resource(k)
                &&& final(self).spec_generations() == old(self).spec_generations()
                &&& final(self).spec_free_indices() == old(self).spec_free_indices()
                &&& final(self).spec_entity_count() == old(self).spec_entity_count()
                &&& final(self).spec_storages() == old(self).spec_storages()
            },
            old(self).spec_resource(kind as int) is None ==> {
                &&& r is None
                &&& final(self).wf()
                &&& forall|k: int| final(self).spec_resource(k) == old(self).spec_resource(k)
                &&& final(self).spec_generations() == old(self).spec_generations()
                &&& final(self).spec_free_indices() == old(self).spec_free_indices()
                &&& final(self).spec_entity_count() == old(self).spec_entity_count()
                &&& final(self).spec_storages() == old(self).spec_storages()
            },
    {
        if kind < self.resources.len() {
            let slot = &mut self.resources[kind];
            slot.as_mut()
        } else {
            None
        }
    }

    /// Remove and return the resource of kind `kind`, if present; afterwards
    /// no resource of that kind is held.
    pub fn remove_resource(&mut self, kind: usize) -> (r: Option<R>)
        requires
            old(self).wf(),
        ensures
            final(self).wf(),
            r == old(self).spec_resource(kind as int),
            final(self).spec_resource(kind as int) is None,
            forall|k: int| k != kind ==> final(self).spec_resource(k) == old(self).spec_resource(k),
            final(self).spec_generations() == old(self).spec_generations(),
            final(self).spec_free_indices() == old(self).spec_free_indices(),
            final(self).spec_entity_count() == old(self).spec_entity_count(),
            final(self).spec_storages() == old(self).spec_storages(),
    {
        if kind < self.resources.len() {
            let slot = &mut self.resources[kind];
            slot.take()
        } else {
            None
        }
    }

    /// Whether a resource of kind `kind` is present.
    pub fn has_resource(&self, kind: usize) -> (r: bool)
        ensures
            r == (self.spec_resource(kind as int) is Some),
    {
        kind < self.resources.len() && self.resources[kind].is_some()
    }
}

impl<C, R> World<C, R> {
    /// A despawned handle stays dead forever, even when its slot index is
    /// reused: once the slot's generation has moved past the handle's own
    /// generation the handle can never be alive again, because no operation
    /// decreases a slot's generation (`despawn` bumps the despawned slot,
    /// `spawn` only appends, and nothing else touches generations).
    pub proof fn lemma_stale_handle_stays_dead(w: World<C, R>, e: Entity)
        requires
            (e.index as int) < w.spec_generations().len(),
            w.spec_generations()[e.index as int] > e.generation,
        ensures
            !w.spec_is_alive(e),
    {
    }

    /// Spawning immediately after despawning reuses the despawned slot:
    /// `despawn` pushes the freed index onto the free list with its
    /// generation bumped by one, and `spawn` pops the most recently freed
    /// index. So given `mid`, the state `despawn(e)` left behind, the next
    /// `spawn` returns a handle with the same index and `e.generation + 1`,
    /// while the old handle `e` fails `is_alive`.
    pub proof fn lemma_spawn_after_despawn_reuses_slot(
        pre: World<C, R>,
        mid: World<C, R>,
        e: Entity,
    )
        requires
            pre.spec_live(e),
            e.generation < u32::MAX,
            mid.spec_generations() == pre.spec_generations().update(
                e.index as int,
                (e.generation + 1) as u32,
            ),
            mid.spec_free_indices() == pre.spec_free_indices().push(e.index),
        ensures
            !mid.spec_is_alive(e),
            mid.spec_free_indices().len() > 0,
            // What spawn's contract then returns on `mid`:
            mid.spec_free_indices().last() == e.index,
            mid.spec_generations()[mid.spec_free_indices().last() as int] == e.generation + 1,
    {
    }

    /// A slot that holds any component exists and is not on the free list:
    /// despawn removes components before freeing a slot, so an `is_alive`
    /// handle whose index holds a component is live (spawned and not yet
    /// despawned). This bridges `is_alive`-level facts to the live-guarded
    /// contracts of `insert` and `despawn`.
    pub proof fn lemma_component_holder_not_free(w: World<C, R>, kind: int, index: u32)
        requires
            w.wf(),
            w.spec_has_component(kind, index as int),
        ensures
            (index as int) < w.spec_generations().len(),
            !w.spec_slot_free(index),
    {
        assert(w.spec_storages()[kind].spec_contains(index as int));
    }

    /// Resource round trip. `w1` is the state `insert_resource(kind, v)`
    /// left behind, so the registry holds exactly `v` under `kind`:
    /// `get_resource` (whose result is `spec_resource(kind)`) returns `v`;
    /// `remove_resource` on `w1` returns `v` and leaves a state `w2` where
    /// the kind is absent, so `has_resource` is `false` there.
    pub proof fn lemma_resource_round_trip(
        w1: World<C, R>,
        w2: World<C, R>,
        kind: int,
        v: R,
        taken: Option<R>,
    )
        requires
            w1.spec_resource(kind) == Some(v),
            taken == w1.spec_resource(kind),
            w2.spec_resource(kind) is None,
        ensures
            w1.spec_resource(kind) is Some,
            w1.spec_resource(kind)->0 == v,
            taken == Some(v),
            !(w2.spec_resource(kind) is Some),
    {
    }
}

/// A sequence of pairwise-distinct values that are all below `bound` cannot
/// be longer than `bound`.
proof fn lemma_distinct_bounded_seq_len(s: Seq<u32>, bound: int)
    requires
        s.no_duplicates(),
        forall|i: int| 0 <= i < s.len() ==> (#[trigger] s[i]) < bound,
        0 <= bound,
    ensures
        s.len() <= bound,
{
    let t = s.map_values(|x: u32| x as int);
    assert(t.no_duplicates()) by {
        assert forall|i: int, j: int|
            0 <= i < t.len() && 0 <= j < t.len() && i != j implies t[i] != t[j] by {
            assert(s[i] != s[j]);
        }
    }
    t.unique_seq_to_set();
    lemma_int_range(0, bound);
    assert(t.to_set() <= set_int_range(0, bound)) by {
        assert forall|x: int| t.to_set().contains(x) implies set_int_range(0, bound).contains(
            x,
        ) by {
            let w = choose|w: int| 0 <= w < t.len() && t[w] == x;
            assert(s[w] < bound);
        }
    }
    lemma_len_subset(t.to_set(), set_int_range(0, bound));
}

} // verus!
