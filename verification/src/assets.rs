use vstd::prelude::*;

verus! {

/// Asset loading errors.
#[derive(Debug)]
pub enum AssetError {
    /// The asset was not found.
    NotFound(String),
    /// Loading the asset failed.
    LoadFailed(String),
    /// The asset's format is invalid.
    InvalidFormat(String),
    /// Reading the asset failed.
    Io(String),
}

/// Handle to a stored asset: the id the manager issued for it.
#[derive(Debug, Clone, Copy, PartialEq, Eq, Structural, Hash)]
pub struct Handle {
    /// Unique identifier of the asset.
    id: u32,
}

impl Handle {
    /// The raw id of this handle.
    pub fn id(&self) -> (r: u32)
        ensures
            r == self.spec_id(),
    {
        self.id
    }

    /// Spec-level id.
    pub closed spec fn spec_id(self) -> u32 {
        self.id
    }
}

/// Raw byte data loaded as an asset.
#[derive(Debug, Clone)]
pub struct Bytes(pub Vec<u8>);

/// Centralized storage for assets: issues handles for stored values, hands
/// them back by handle, and remembers which path an asset was loaded from so
/// a second load of the same path reuses the stored asset.
pub struct ResourceManager<A> {
    /// Assets by id; a removed asset leaves an empty slot.
    assets: Vec<Option<A>>,
    /// Path -> id bindings for deduplication; paths are unique.
    paths: Vec<(String, u32)>,
}

impl<A> ResourceManager<A> {
    /// The asset slots, by id.
    pub closed spec fn assets_view(self) -> Seq<Option<A>> {
        self.assets@
    }

    /// The path bindings.
    pub closed spec fn paths_view(self) -> Seq<(String, u32)> {
        self.paths@
    }

    /// The asset stored under an id, if the id was issued and the asset not
    /// removed.
    pub open spec fn spec_asset(self, id: int) -> Option<A> {
        if 0 <= id < self.assets_view().len() {
            self.assets_view()[id]
        } else {
            None
        }
    }

    /// Whether some binding carries this path.
    pub open spec fn spec_has_path(self, path: Seq<char>) -> bool {
        exists|i: int|
            0 <= i < self.paths_view().len() && (#[trigger] self.paths_view()[i]).0@ == path
    }

    /// The id bound to a path, if any.
    pub open spec fn spec_path_id(self, path: Seq<char>) -> Option<u32> {
        if self.spec_has_path(path) {
            Some(
                self.paths_view()[choose|i: int|
                    0 <= i < self.paths_view().len() && (#[trigger] self.paths_view()[i]).0@
                        == path].1,
            )
        } else {
            None
        }
    }

    /// Paths are unique, every binding points at an issued id, and no two
    /// bindings share an id (ids are never reused, so an id is bound by at
    /// most one path).
    pub closed spec fn wf(self) -> bool {
        &&& forall|i: int, j: int|
            0 <= i < j < self.paths@.len() ==> (#[trigger] self.paths@[i]).0@ != (
            #[trigger] self.paths@[j]).0@
        &&& forall|i: int|
            0 <= i < self.paths@.len() ==> (#[trigger] self.paths@[i]).1 < self.assets@.len()
        &&& forall|i: int, j: int|
            0 <= i < j < self.paths@.len() ==> (#[trigger] self.paths@[i]).1 != (
            #[trigger] self.paths@[j]).1
    }

    /// Create an empty manager.
    pub fn new() -> (m: ResourceManager<A>)
        ensures
            m.wf(),
            m.assets_view().len() == 0,
            m.paths_view().len() == 0,
            forall|id: int| m.spec_asset(id) is None,
            forall|p: Seq<char>| !m.spec_has_path(p),
    {
        ResourceManager { assets: Vec::new(), paths: Vec::new() }
    }

    /// Store an asset and return its handle. Ids are never reused.
    pub fn insert(&mut self, asset: A) -> (h: Handle)
        requires
            old(self).wf(),
            old(self).assets_view().len() < u32::MAX,
        ensures
            final(self).wf(),
            h.spec_id() as int == old(self).assets_view().len(),
            final(self).spec_asset(h.spec_id() as int) == Some(asset),
            forall|id: int| id != h.spec_id() ==> final(self).spec_asset(id) == old(
                self,
            ).spec_asset(id),
            final(self).paths_view() == old(self).paths_view(),
            final(self).assets_view().len() == old(self).assets_view().len() + 1,
    {
        let id = self.assets.len() as u32;
        self.assets.push(Some(asset));
        Handle { id }
    }

    /// Store an asset and bind it to a path, so that `get_by_path` finds it.
    /// A previous binding of the same path is replaced.
    #[verifier::loop_isolation(false)]
    pub fn insert_with_path(&mut self, asset: A, path: &str) -> (h: Handle)
        requires
            old(self).wf(),
            old(self).assets_view().len() < u32::MAX,
        ensures
            final(self).wf(),
            h.spec_id() as int == old(self).assets_view().len(),
            final(self).spec_asset(h.spec_id() as int) == Some(asset),
            forall|id: int| id != h.spec_id() ==> final(self).spec_asset(id) == old(
                self,
            ).spec_asset(id),
            final(self).spec_path_id(path@) == Some(h.spec_id()),
            forall|p: Seq<char>|
                p != path@ ==> final(self).spec_path_id(p) == old(self).spec_path_id(p),
            final(self).assets_view().len() == old(self).assets_view().len() + 1,
    {
        let id = self.assets.len() as u32;
        self.assets.push(Some(asset));

        let ghost mid = *self;
        let mut i: usize = 0;
        while i < self.paths.len()
            invariant
                mid.wf(),
                self.assets@ == mid.assets@,
                self.paths@ == mid.paths@,
                i <= self.paths@.len(),
                forall|j: int| 0 <= j < i ==> (#[trigger] self.paths@[j]).0@ != path@,
            decreases self.paths@.len() - i,
        {
            if compare_str(&self.paths[i].0, path) {
                self.paths[i] = (path.to_owned(), id);
                proof {
                    assert forall|a: int, b: int|
                        0 <= a < b < self.paths@.len() implies (#[trigger] self.paths@[a]).0@ != (
                    #[trigger] self.paths@[b]).0@ by {
                        assert(mid.paths@[a].0@ != mid.paths@[b].0@);
                    }
                    assert forall|j: int|
                        0 <= j < self.paths@.len() implies (#[trigger] self.paths@[j]).1
                            < self.assets@.len() by {
                        if j != i {
                            assert(self.paths@[j] == mid.paths@[j]);
                            assert(mid.paths@[j].1 < mid.assets@.len());
                        } else {
                            assert(self.paths@[j].1 == id);
                        }
                    }
                    assert forall|a: int, b: int|
                        0 <= a < b < self.paths@.len() implies (#[trigger] self.paths@[a]).1 != (
                    #[trigger] self.paths@[b]).1 by {
                        if a != i && b != i {
                            assert(mid.paths@[a].1 != mid.paths@[b].1);
                        } else if a == i {
                            assert(old(self).paths@[b].1 < old(self).assets@.len());
                        } else {
                            assert(old(self).paths@[a].1 < old(self).assets@.len());
                        }
                    }
                    assert(self.wf());
                    lemma_unique_path(*self, path@, i as int);
                    assert forall|p: Seq<char>| p != path@ implies final(self).spec_path_id(p)
                        == old(self).spec_path_id(p) by {
                        lemma_path_unaffected(mid, *self, p, i as int);
                        lemma_same_paths_same_lookup(mid, *old(self), p);
                    }
                }
                return Handle { id };
            }
            i = i + 1;
        }
        let ghost pre = self.paths@;
        self.paths.push((path.to_owned(), id));
        proof {
            assert(forall|j: int| 0 <= j < pre.len() ==> (#[trigger] self.paths@[j]) == pre[j]);
            assert forall|a: int, b: int|
                0 <= a < b < self.paths@.len() implies (#[trigger] self.paths@[a]).0@ != (
            #[trigger] self.paths@[b]).0@ by {
                if b < pre.len() {
                    assert(mid.paths@[a].0@ != mid.paths@[b].0@);
                } else {
                    assert(self.paths@[a].0@ != path@);
                }
            }
            assert forall|j: int|
                0 <= j < self.paths@.len() implies (#[trigger] self.paths@[j]).1
                    < self.assets@.len() by {
                if j < pre.len() {
                    assert(self.paths@[j] == mid.paths@[j]);
                    assert(mid.paths@[j].1 < mid.assets@.len());
                }
            }
            assert forall|a: int, b: int|
                0 <= a < b < self.paths@.len() implies (#[trigger] self.paths@[a]).1 != (
            #[trigger] self.paths@[b]).1 by {
                if b < pre.len() {
                    assert(mid.paths@[a].1 != mid.paths@[b].1);
                } else {
                    assert(old(self).paths@[a].1 < old(self).assets@.len());
                    assert(self.paths@[b].1 == id);
                }
            }
            assert(self.wf());
            lemma_unique_path(*self, path@, pre.len() as int);
            assert forall|p: Seq<char>| p != path@ implies final(self).spec_path_id(p) == old(
                self,
            ).spec_path_id(p) by {
                lemma_path_unaffected(mid, *self, p, pre.len() as int);
                lemma_same_paths_same_lookup(mid, *old(self), p);
            }
        }
        Handle { id }
    }

    /// The asset a handle names, if it is still stored.
    pub fn get(&self, handle: Handle) -> (r: Option<&A>)
        ensures
            match r {
                Some(a) => self.spec_asset(handle.spec_id() as int) == Some(*a),
                None => self.spec_asset(handle.spec_id() as int) is None,
            },
    {
        let idx = handle.id() as usize;
        if idx < self.assets.len() {
            self.assets[idx].as_ref()
        } else {
            None
        }
    }

    /// The handle bound to a path, if an asset was stored under it.
    pub fn get_by_path(&self, path: &str) -> (r: Option<Handle>)
        requires
            self.wf(),
        ensures
            match r {
                Some(h) => self.spec_path_id(path@) == Some(h.spec_id()),
                None => self.spec_path_id(path@) is None,
            },
    {
        let mut i: usize = 0;
        while i < self.paths.len()
            invariant
                self.wf(),
                i <= self.paths@.len(),
                forall|j: int| 0 <= j < i ==> (#[trigger] self.paths@[j]).0@ != path@,
            decreases self.paths@.len() - i,
        {
            if compare_str(&self.paths[i].0, path) {
                proof {
                    lemma_unique_path(*self, path@, i as int);
                }
                return Some(Handle { id: self.paths[i].1 });
            }
            i = i + 1;
        }
        None
    }

    /// Position of the binding that points at this id, if any.
    fn find_binding(&self, id: u32) -> (r: Option<usize>)
        ensures
            match r {
                Some(i) => (i as int) < self.paths_view().len() && self.paths_view()[i as int].1
                    == id,
                None => forall|j: int|
                    0 <= j < self.paths_view().len() ==> (#[trigger] self.paths_view()[j]).1 != id,
            },
    {
        let mut i: usize = 0;
        while i < self.paths.len()
            invariant
                i <= self.paths@.len(),
                forall|j: int| 0 <= j < i ==> (#[trigger] self.paths@[j]).1 != id,
            decreases self.paths@.len() - i,
        {
            if self.paths[i].1 == id {
                return Some(i);
            }
            i = i + 1;
        }
        None
    }

    /// Remove the asset a handle names, returning it; the path binding that
    /// pointed at it (there is at most one, since ids are never reused) is
    /// dropped. Other assets and bindings stay.
    pub fn remove(&mut self, handle: Handle) -> (r: Option<A>)
        requires
            old(self).wf(),
        ensures
            final(self).wf(),
            r == old(self).spec_asset(handle.spec_id() as int),
            final(self).spec_asset(handle.spec_id() as int) is None,
            forall|id: int| id != handle.spec_id() ==> final(self).spec_asset(id) == old(
                self,
            ).spec_asset(id),
            forall|p: Seq<char>|
                #![trigger old(self).spec_path_id(p)]
                match old(self).spec_path_id(p) {
                    Some(id) => if id == handle.spec_id() {
                        final(self).spec_path_id(p) is None
                    } else {
                        final(self).spec_path_id(p) == old(self).spec_path_id(p)
                    },
                    None => final(self).spec_path_id(p) is None,
                },
    {
        // Find the (at most one) binding that points at this handle.
        let bound = self.find_binding(handle.id());

        let ghost orig = *old(self);
        match bound {
            Some(j) => {
                let removed = self.paths.remove(j);
                proof {
                    assert(removed.1 == handle.spec_id());
                    assert forall|a: int, b: int|
                        0 <= a < b < self.paths@.len() implies (#[trigger] self.paths@[a]).0@ != (
                    #[trigger] self.paths@[b]).0@ && (#[trigger] self.paths@[a]).1 != (
                    #[trigger] self.paths@[b]).1 && self.paths@[a].1 < self.assets@.len()
                        && self.paths@[b].1 < self.assets@.len() by {
                        let a0 = if a < j { a } else { a + 1 };
                        let b0 = if b < j { b } else { b + 1 };
                        assert(self.paths@[a] == orig.paths@[a0]);
                        assert(self.paths@[b] == orig.paths@[b0]);
                        assert(orig.paths@[a0].0@ != orig.paths@[b0].0@);
                    }
                    assert forall|p: Seq<char>|
                        #![trigger orig.spec_path_id(p)]
                        match orig.spec_path_id(p) {
                            Some(id) => if id == handle.spec_id() {
                                self.spec_path_id(p) is None
                            } else {
                                self.spec_path_id(p) == orig.spec_path_id(p)
                            },
                            None => self.spec_path_id(p) is None,
                        } by {
                        if orig.spec_has_path(p) {
                            let w = choose|w: int|
                                0 <= w < orig.paths@.len() && (#[trigger] orig.paths@[w]).0@ == p;
                            lemma_unique_path(orig, p, w);
                            if orig.paths@[w].1 == handle.spec_id() {
                                // Id-uniqueness: the only binding with this
                                // id sat at the removed index.
                                assert(w == j);
                                if self.spec_has_path(p) {
                                    let k = choose|k: int|
                                        0 <= k < self.paths@.len() && (
                                        #[trigger] self.paths@[k]).0@ == p;
                                    let k0 = if k < j {
                                        k
                                    } else {
                                        k + 1
                                    };
                                    assert(self.paths@[k] == orig.paths@[k0]);
                                    assert(orig.paths@[k0].0@ == orig.paths@[w].0@ && k0 != w);
                                }
                            } else {
                                assert(w != j);
                                let k = if w < j {
                                    w
                                } else {
                                    w - 1
                                };
                                assert(self.paths@[k] == orig.paths@[w]);
                                lemma_unique_path(*self, p, k);
                            }
                        } else {
                            if self.spec_has_path(p) {
                                let k = choose|k: int|
                                    0 <= k < self.paths@.len() && (#[trigger] self.paths@[k]).0@
                                        == p;
                                let k0 = if k < j {
                                    k
                                } else {
                                    k + 1
                                };
                                assert(orig.paths@[k0].0@ == p);
                            }
                        }
                    }
                }
            },
            None => {
                proof {
                    assert forall|p: Seq<char>|
                        #![trigger orig.spec_path_id(p)]
                        match orig.spec_path_id(p) {
                            Some(id) => if id == handle.spec_id() {
                                self.spec_path_id(p) is None
                            } else {
                                self.spec_path_id(p) == orig.spec_path_id(p)
                            },
                            None => self.spec_path_id(p) is None,
                        } by {
                        if orig.spec_has_path(p) {
                            let w = choose|w: int|
                                0 <= w < orig.paths@.len() && (#[trigger] orig.paths@[w]).0@ == p;
                            lemma_unique_path(orig, p, w);
                            assert(orig.paths@[w].1 != handle.spec_id());
                        }
                    }
                }
            },
        }
        let ghost paths_done = *self;

        // Empty the asset slot.
        let idx = handle.id() as usize;
        let r: Option<A> = if idx < self.assets.len() {
            let slot = &mut self.assets[idx];
            slot.take()
        } else {
            None
        };

        proof {
            assert(final(self).paths@ == paths_done.paths@);
            assert forall|p: Seq<char>| paths_done.spec_path_id(p) == final(self).spec_path_id(
                p,
            ) by {
                if paths_done.spec_has_path(p) {
                    let w = choose|w: int|
                        0 <= w < paths_done.paths@.len() && (#[trigger] paths_done.paths@[w]).0@
                            == p;
                    lemma_unique_path(paths_done, p, w);
                    lemma_unique_path(*self, p, w);
                } else {
                    if final(self).spec_has_path(p) {
                        let w = choose|w: int|
                            0 <= w < self.paths@.len() && (#[trigger] self.paths@[w]).0@ == p;
                        assert(paths_done.paths@[w].0@ == p);
                    }
                }
            }
            assert forall|j2: int|
                0 <= j2 < self.paths@.len() implies (#[trigger] self.paths@[j2]).1
                    < self.assets@.len() by {
                assert(paths_done.paths@[j2].1 < paths_done.assets@.len());
            }
            assert(final(self).wf());
        }

        r
    }
}

/// Whether two strings hold the same characters.
fn compare_str(a: &String, b: &str) -> (r: bool)
    ensures
        r == (a@ == b@),
{
    *a == b.to_owned()
}

/// Two managers with the same (unique) path bindings resolve every path
/// alike.
proof fn lemma_same_paths_same_lookup<A>(a: ResourceManager<A>, b: ResourceManager<A>, p: Seq<char>)
    requires
        a.paths_view() == b.paths_view(),
        forall|i: int, j: int|
            0 <= i < j < a.paths_view().len() ==> (#[trigger] a.paths_view()[i]).0@ != (
            #[trigger] a.paths_view()[j]).0@,
    ensures
        a.spec_path_id(p) == b.spec_path_id(p),
{
    if a.spec_has_path(p) {
        let w = choose|w: int|
            0 <= w < a.paths_view().len() && (#[trigger] a.paths_view()[w]).0@ == p;
        lemma_unique_path(a, p, w);
        assert(b.paths_view()[w].0@ == p);
        lemma_unique_path(b, p, w);
    } else if b.spec_has_path(p) {
        let w = choose|w: int|
            0 <= w < b.paths_view().len() && (#[trigger] b.paths_view()[w]).0@ == p;
        assert(a.paths_view()[w].0@ == p);
    }
}

/// In a manager with unique paths, an index whose binding carries `path` is
/// the binding `spec_path_id` denotes.
proof fn lemma_unique_path<A>(m: ResourceManager<A>, path: Seq<char>, i: int)
    requires
        forall|a: int, b: int|
            0 <= a < b < m.paths_view().len() ==> (#[trigger] m.paths_view()[a]).0@ != (
            #[trigger] m.paths_view()[b]).0@,
        0 <= i < m.paths_view().len(),
        m.paths_view()[i].0@ == path,
    ensures
        m.spec_has_path(path),
        m.spec_path_id(path) == Some(m.paths_view()[i].1),
{
    assert(m.spec_has_path(path));
    let w = choose|w: int|
        0 <= w < m.paths_view().len() && (#[trigger] m.paths_view()[w]).0@ == path;
    if w != i {
        if w < i {
            assert(m.paths_view()[w].0@ != m.paths_view()[i].0@);
        } else {
            assert(m.paths_view()[i].0@ != m.paths_view()[w].0@);
        }
    }
}

/// A path lookup is unaffected by changing a binding whose path differs,
/// when the binding sequences agree elsewhere.
proof fn lemma_path_unaffected<A>(
    a: ResourceManager<A>,
    b: ResourceManager<A>,
    path: Seq<char>,
    i: int,
)
    requires
        a.wf(),
        b.wf(),
        path != b.paths_view()[i].0@,
        0 <= i < b.paths_view().len(),
        a.paths_view().len() == b.paths_view().len() || a.paths_view().len() + 1
            == b.paths_view().len() && i == a.paths_view().len(),
        forall|j: int|
            0 <= j < b.paths_view().len() && j != i ==> (#[trigger] b.paths_view()[j])
                == a.paths_view()[j],
        a.paths_view().len() == b.paths_view().len() ==> path != a.paths_view()[i].0@,
    ensures
        b.spec_path_id(path) == a.spec_path_id(path),
{
    if b.spec_has_path(path) {
        let w = choose|w: int|
            0 <= w < b.paths_view().len() && (#[trigger] b.paths_view()[w]).0@ == path;
        assert(w != i);
        assert(a.paths_view()[w].0@ == path);
        lemma_unique_path(a, path, w);
        lemma_unique_path(b, path, w);
    } else if a.spec_has_path(path) {
        let w = choose|w: int|
            0 <= w < a.paths_view().len() && (#[trigger] a.paths_view()[w]).0@ == path;
        assert(w != i || a.paths_view().len() == b.paths_view().len());
        assert(b.paths_view()[w].0@ == path);
        assert(b.spec_has_path(path));
    }
}

} // verus!
