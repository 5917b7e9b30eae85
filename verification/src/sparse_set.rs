use vstd::prelude::*;

verus! {

/// Sparse-set storage for one component type.
///
/// Three parallel structures: `sparse` maps an entity index to a position in
/// the dense arrays; `dense` holds the component values contiguously;
/// `entities` holds, for each dense position, the entity index that owns the
/// value there. Insert, removal and lookup are O(1); iteration walks the
/// dense arrays directly.
pub struct SparseSet<T> {
    /// Entity index -> position in the dense arrays.
    sparse: Vec<Option<usize>>,
    /// Component values, densely packed.
    dense: Vec<T>,
    /// Owning entity index for each dense position.
    entities: Vec<u32>,
}

impl<T> SparseSet<T> {
    /// The dense sequence of component values.
    pub closed spec fn dense_view(self) -> Seq<T> {
        self.dense@
    }

    /// The dense sequence of owning entity indices, parallel to `dense_view`.
    pub closed spec fn entities_view(self) -> Seq<u32> {
        self.entities@
    }

    /// How many entity indices the sparse array currently covers.
    pub closed spec fn slot_count(self) -> int {
        self.sparse@.len() as int
    }

    /// Whether entity index `i` has a value in this set.
    pub closed spec fn spec_contains(self, i: int) -> bool {
        0 <= i < self.sparse@.len() && self.sparse@[i] is Some
    }

    /// The value stored for entity index `i` (meaningful when `spec_contains(i)`).
    pub closed spec fn spec_at(self, i: int) -> T {
        self.dense@[self.sparse@[i]->0 as int]
    }

    /// The dense position of entity index `i` (meaningful when `spec_contains(i)`).
    pub closed spec fn spec_pos(self, i: int) -> int {
        self.sparse@[i]->0 as int
    }

    /// Structural invariant: the dense arrays are parallel, every sparse
    /// entry points at a dense slot owned by that entity index, and every
    /// dense slot is pointed at by its owner's sparse entry.
    pub closed spec fn wf(self) -> bool {
        &&& self.dense@.len() == self.entities@.len()
        &&& self.sparse@.len() <= u32::MAX as int
        &&& forall|i: int|
            0 <= i < self.sparse@.len() && self.sparse@[i] is Some ==> {
                &&& (#[trigger] self.sparse@[i])->0 < self.dense@.len()
                &&& self.entities@[self.sparse@[i]->0 as int] == i as u32
            }
        &&& forall|d: int|
            0 <= d < self.entities@.len() ==> {
                &&& (#[trigger] self.entities@[d]) < self.sparse@.len()
                &&& self.sparse@[self.entities@[d] as int] == Some(d as usize)
            }
    }

    /// A well-formed set's dense arrays are parallel, and every stored entity
    /// index is listed in the dense entity array at its recorded position.
    pub proof fn lemma_wf_facts(&self)
        requires
            self.wf(),
        ensures
            self.dense_view().len() == self.entities_view().len(),
            forall|i: int|
                #[trigger] self.spec_contains(i) ==> {
                    &&& 0 <= self.spec_pos(i) < self.entities_view().len()
                    &&& self.entities_view()[self.spec_pos(i)] == i as u32
                    &&& self.spec_at(i) == self.dense_view()[self.spec_pos(i)]
                    &&& 0 <= i <= u32::MAX
                },
            forall|d: int|
                0 <= d < self.entities_view().len() ==> {
                    &&& self.spec_contains(#[trigger] self.entities_view()[d] as int)
                    &&& self.spec_pos(self.entities_view()[d] as int) == d
                },
    {
        assert(self.entities@.len() <= usize::MAX) by {
            assert(self.entities.len() <= usize::MAX);
        }
        assert forall|d: int| 0 <= d < self.entities@.len() implies {
            &&& self.spec_contains(#[trigger] self.entities@[d] as int)
            &&& self.spec_pos(self.entities@[d] as int) == d
        } by {
            assert(self.entities@[d] < self.sparse@.len());
            assert(self.sparse@[self.entities@[d] as int] == Some(d as usize));
            assert(self.spec_contains(self.entities@[d] as int));
            assert(self.spec_pos(self.entities@[d] as int) == (d as usize) as int);
        }
    }

    /// Create an empty set.
    pub fn new() -> (s: SparseSet<T>)
        ensures
            s.wf(),
            s.dense_view() =~= Seq::<T>::empty(),
            s.entities_view() =~= Seq::<u32>::empty(),
            forall|i: int| !s.spec_contains(i),
            s.slot_count() == 0,
    {
        SparseSet { sparse: Vec::new(), dense: Vec::new(), entities: Vec::new() }
    }

    /// Number of stored values.
    pub fn len(&self) -> (n: usize)
        ensures
            n == self.dense_view().len(),
    {
        self.dense.len()
    }

    /// The owning entity index at dense position `d`. Iteration over the set
    /// walks the dense arrays through this accessor, never the sparse array.
    pub fn entity_at(&self, d: usize) -> (i: u32)
        requires
            self.wf(),
            (d as int) < self.entities_view().len(),
        ensures
            i == self.entities_view()[d as int],
            self.spec_contains(i as int),
            self.spec_pos(i as int) == d as int,
    {
        self.entities[d]
    }

    /// The component value at dense position `d`.
    pub fn value_at(&self, d: usize) -> (v: &T)
        requires
            self.wf(),
            (d as int) < self.dense_view().len(),
        ensures
            *v == self.dense_view()[d as int],
    {
        &self.dense[d]
    }

    /// Whether entity index `entity_index` has a value here.
    pub fn contains(&self, entity_index: u32) -> (r: bool)
        ensures
            r == self.spec_contains(entity_index as int),
    {
        let idx = entity_index as usize;
        idx < self.sparse.len() && self.sparse[idx].is_some()
    }

    /// Look up the value stored for `entity_index`.
    pub fn get(&self, entity_index: u32) -> (r: Option<&T>)
        requires
            self.wf(),
        ensures
            match r {
                Some(v) => self.spec_contains(entity_index as int) && *v == self.spec_at(
                    entity_index as int,
                ),
                None => !self.spec_contains(entity_index as int),
            },
    {
        let idx = entity_index as usize;
        if idx < self.sparse.len() {
            match self.sparse[idx] {
                Some(d) => Some(&self.dense[d]),
                None => None,
            }
        } else {
            None
        }
    }

    /// Look up the value stored for `entity_index`, mutably.
    pub fn get_mut(&mut self, entity_index: u32) -> (r: Option<&mut T>)
        requires
            old(self).wf(),
        ensures
            old(self).spec_contains(entity_index as int) ==> {
                &&& r is Some
                &&& *r->0 == old(self).spec_at(entity_index as int)
                &&& final(self).wf()
                &&& final(self).dense_view() =~= old(self).dense_view().update(
                    old(self).spec_pos(entity_index as int),
                    *final(r->0),
                )
                &&& final(self).entities_view() == old(self).entities_view()
                &&& forall|j: int| final(self).spec_contains(j) == old(self).spec_contains(j)
                &&& forall|j: int|
                    old(self).spec_contains(j) ==> final(self).spec_pos(j) == old(self).spec_pos(j)
                &&& forall|j: int|
                    old(self).spec_contains(j) && j != entity_index ==> final(self).spec_at(j)
                        == old(self).spec_at(j)
                &&& final(self).spec_at(entity_index as int) == *final(r->0)
            },
            !old(self).spec_contains(entity_index as int) ==> r is None && *final(self) == *old(self),
    {
        let idx = entity_index as usize;
        if idx < self.sparse.len() {
            match self.sparse[idx] {
                Some(d) => {
                    let v = &mut self.dense[d];
                    proof {
                        assert(forall|j: int|
                            old(self).spec_contains(j) && j != entity_index ==> old(self).spec_pos(j) != old(self).spec_pos(entity_index as int));
                    }
                    Some(v)
                },
                None => None,
            }
        } else {
            None
        }
    }

    /// Insert `component` for `entity_index`. If the entity already has a
    /// value of this type it is overwritten in place; the number of stored
    /// values does not change in that case.
    pub fn insert(&mut self, entity_index: u32, component: T)
        requires
            old(self).wf(),
            entity_index < u32::MAX,
        ensures
            final(self).wf(),
            final(self).spec_contains(entity_index as int),
            final(self).spec_at(entity_index as int) == component,
            forall|j: int|
                j != entity_index ==> final(self).spec_contains(j) == old(self).spec_contains(j),
            forall|j: int|
                j != entity_index && old(self).spec_contains(j) ==> final(self).spec_at(j) == old(self).spec_at(j),
            old(self).spec_contains(entity_index as int) ==> final(self).dense_view().len() == old(self).dense_view().len() && final(self).entities_view() == old(self).entities_view(),
            !old(self).spec_contains(entity_index as int) ==> final(self).dense_view().len() == old(self).dense_view().len() + 1 && final(self).entities_view() == old(self).entities_view().push(entity_index),
    {
        let idx = entity_index as usize;

        if idx >= self.sparse.len() {
            // Grow the sparse array to cover this entity index.
            let ghost old_sparse = self.sparse@;
            let mut grow: usize = self.sparse.len();
            while grow < idx + 1
                invariant
                    self.sparse@.len() == grow,
                    grow <= idx + 1,
                    idx < u32::MAX,
                    self.sparse@.subrange(0, old_sparse.len() as int) == old_sparse,
                    old_sparse.len() <= grow,
                    forall|k: int|
                        old_sparse.len() <= k < grow ==> self.sparse@[k] is None,
                    self.dense@ == old(self).dense@,
                    self.entities@ == old(self).entities@,
                decreases idx + 1 - grow,
            {
                self.sparse.push(None);
                grow = grow + 1;
            }
            proof {
                assert(forall|k: int|
                    0 <= k < old_sparse.len() ==> self.sparse@[k] == old_sparse[k]);
            }
        }

        let slot = self.sparse[idx];
        match slot {
            Some(dense_idx) => {
                self.dense[dense_idx] = component;
                proof {
                    assert(final(self).wf());
                    assert(forall|j: int|
                        j != entity_index && old(self).spec_contains(j) ==> old(self).spec_pos(j)
                            != old(self).spec_pos(entity_index as int));
                }
            },
            None => {
                let dense_idx = self.dense.len();
                self.sparse[idx] = Some(dense_idx);
                self.dense.push(component);
                self.entities.push(entity_index);
            },
        }
    }

    /// Remove and return the value stored for `entity_index`, if any.
    ///
    /// Removal swaps the last dense element into the vacated position, so at
    /// most one other entity's value moves, and that value itself is
    /// unchanged: every other entity still maps to the same component value.
    pub fn remove(&mut self, entity_index: u32) -> (r: Option<T>)
        requires
            old(self).wf(),
        ensures
            final(self).wf(),
            !final(self).spec_contains(entity_index as int),
            final(self).slot_count() == old(self).slot_count(),
            old(self).spec_contains(entity_index as int) ==> {
                &&& r == Some(old(self).spec_at(entity_index as int))
                &&& final(self).dense_view().len() == old(self).dense_view().len() - 1
                &&& {
                    let p = old(self).spec_pos(entity_index as int);
                    let last = old(self).dense_view().len() - 1;
                    &&& final(self).dense_view() =~= old(self).dense_view().update(
                        p,
                        old(self).dense_view()[last],
                    ).drop_last()
                    &&& final(self).entities_view() =~= old(self).entities_view().update(
                        p,
                        old(self).entities_view()[last],
                    ).drop_last()
                }
            },
            !old(self).spec_contains(entity_index as int) ==> r is None && *final(self) == *old(self),
            forall|j: int|
                j != entity_index ==> final(self).spec_contains(j) == old(self).spec_contains(j),
            forall|j: int|
                j != entity_index && old(self).spec_contains(j) ==> final(self).spec_at(j) == old(self).spec_at(j),
    {
        let idx = entity_index as usize;

        if idx >= self.sparse.len() {
            return None;
        }

        let slot = self.sparse[idx];
        match slot {
            None => None,
            Some(dense_idx) => {
                self.sparse[idx] = None;
                let removed = self.dense.swap_remove(dense_idx);
                let _ = self.entities.swap_remove(dense_idx);

                if dense_idx < self.dense.len() {
                    // A later element was moved into the vacated position:
                    // repoint its owner's sparse entry.
                    let swapped_entity = self.entities[dense_idx] as usize;
                    self.sparse[swapped_entity] = Some(dense_idx);
                }

                proof {
                    let os = *old(self);
                    let p = os.spec_pos(entity_index as int);
                    let last = os.dense@.len() - 1;
                    assert(final(self).dense_view() =~= os.dense_view().update(
                        p,
                        os.dense_view()[last],
                    ).drop_last());
                    assert(final(self).entities_view() =~= os.entities_view().update(
                        p,
                        os.entities_view()[last],
                    ).drop_last());
                    assert forall|j: int| j != entity_index && os.spec_contains(j) implies {
                        &&& final(self).spec_contains(j)
                        &&& final(self).spec_at(j) == os.spec_at(j)
                    } by {
                        assert(os.spec_pos(j) != p);
                    }
                    assert(final(self).wf());
                }

                Some(removed)
            },
        }
    }
}

} // verus!
