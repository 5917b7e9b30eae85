use vstd::prelude::*;

verus! {

/// Item type categories.
#[derive(Debug, Clone, Copy, PartialEq, Eq, Structural, Hash)]
pub enum ItemType {
    /// Tools (hoe, watering can, axe, pickaxe, ...).
    Tool,
    /// Seeds for planting.
    Seed,
    /// Harvested crops.
    Crop,
    /// Raw resources (wood, stone, ore).
    Resource,
    /// Food and potions.
    Consumable,
    /// Furniture and decorations.
    Furniture,
    /// Quest items and special objects.
    Special,
}

impl Default for ItemType {
    /// The default item type is `Resource`.
    fn default() -> (r: Self)
        ensures
            r == ItemType::Resource,
    {
        ItemType::Resource
    }
}

/// Tool type for specialized tools.
#[derive(Debug, Clone, Copy, PartialEq, Eq, Structural, Hash)]
pub enum ToolType {
    Hoe,
    WateringCan,
    Axe,
    Pickaxe,
    Scythe,
    FishingRod,
}

/// An item definition from the game's item data.
#[derive(Debug, Clone)]
pub struct ItemDefinition {
    /// Unique identifier.
    pub id: String,
    /// Display name.
    pub name: String,
    /// Item category.
    pub item_type: ItemType,
    /// Maximum stack size.
    pub max_stack: u32,
    /// Base sell price in gold.
    pub sell_price: u32,
    /// Optional description.
    pub description: String,
    /// For seeds: what crop they grow into.
    pub grows_into: Option<String>,
    /// For crops: growth time in days.
    pub growth_days: Option<u32>,
    /// For crops: regrows after harvest.
    pub regrows: bool,
    /// For tools: the tool type.
    pub tool_type: Option<ToolType>,
    /// For consumables: energy restored.
    pub energy: Option<i32>,
    /// For consumables: health restored.
    pub health: Option<i32>,
    /// Seasons when this can be planted or found.
    pub seasons: Vec<String>,
}

impl ItemDefinition {
    /// Whether more than one of this item fits in a stack.
    pub fn is_stackable(&self) -> (r: bool)
        ensures
            r == (self.max_stack > 1),
    {
        self.max_stack > 1
    }

    /// Whether this item is a tool.
    pub fn is_tool(&self) -> (r: bool)
        ensures
            r == (self.item_type == ItemType::Tool),
    {
        self.item_type == ItemType::Tool
    }

    /// Whether this item is a seed.
    pub fn is_seed(&self) -> (r: bool)
        ensures
            r == (self.item_type == ItemType::Seed),
    {
        self.item_type == ItemType::Seed
    }

    /// Whether this item can be eaten.
    pub fn is_edible(&self) -> (r: bool)
        ensures
            r == (self.item_type == ItemType::Consumable || self.item_type == ItemType::Crop),
    {
        self.item_type == ItemType::Consumable || self.item_type == ItemType::Crop
    }
}

/// Database of item definitions, keyed by their unique ids.
#[derive(Debug, Default)]
pub struct ItemDatabase {
    items: Vec<ItemDefinition>,
}

impl ItemDatabase {
    /// The stored definitions, in insertion order.
    pub closed spec fn defs_view(self) -> Seq<ItemDefinition> {
        self.items@
    }

    /// Each id occurs at most once.
    pub closed spec fn wf(self) -> bool {
        forall|i: int, j: int|
            0 <= i < j < self.items@.len() ==> (#[trigger] self.items@[i].id@) != (
            #[trigger] self.items@[j].id@)
    }

    /// Whether some definition carries this id.
    pub open spec fn spec_contains_id(self, id: Seq<char>) -> bool {
        exists|i: int| 0 <= i < self.defs_view().len() && (#[trigger] self.defs_view()[i].id@) == id
    }

    /// The index of the definition carrying this id.
    pub open spec fn spec_index_of(self, id: Seq<char>) -> int {
        choose|i: int| 0 <= i < self.defs_view().len() && (#[trigger] self.defs_view()[i].id@) == id
    }

    /// The definition stored under this id, if any.
    pub open spec fn spec_get(self, id: Seq<char>) -> Option<ItemDefinition> {
        if self.spec_contains_id(id) {
            Some(self.defs_view()[self.spec_index_of(id)])
        } else {
            None
        }
    }

    /// Create an empty database.
    pub fn new() -> (db: ItemDatabase)
        ensures
            db.wf(),
            db.defs_view().len() == 0,
            forall|id: Seq<char>| !db.spec_contains_id(id),
    {
        ItemDatabase { items: Vec::new() }
    }

    /// Store a definition, replacing any previous definition with the same
    /// id.
    pub fn insert(&mut self, def: ItemDefinition)
        requires
            old(self).wf(),
        ensures
            final(self).wf(),
            final(self).spec_get(def.id@) == Some(def),
            forall|id: Seq<char>|
                id != def.id@ ==> final(self).spec_get(id) == old(self).spec_get(id),
            final(self).defs_view().len() == old(self).defs_view().len() + (
            if old(self).spec_contains_id(def.id@) {
                0int
            } else {
                1int
            }),
    {
        let ghost orig = self.items@;
        let mut i: usize = 0;
        while i < self.items.len()
            invariant
                old(self).wf(),
                self.items@ == orig,
                orig == old(self).items@,
                i <= self.items@.len(),
                forall|j: int| 0 <= j < i ==> (#[trigger] self.items@[j].id@) != def.id@,
            decreases self.items@.len() - i,
        {
            if self.items[i].id == def.id {
                self.items[i] = def;
                proof {
                    lemma_unique_get(*self, def.id@, i as int);
                    assert forall|id: Seq<char>| id != def.id@ implies final(self).spec_get(id)
                        == old(self).spec_get(id) by {
                        lemma_get_unaffected(*old(self), *self, id, i as int);
                    }
                }
                return ;
            }
            i = i + 1;
        }
        self.items.push(def);
        proof {
            assert(forall|j: int|
                0 <= j < orig.len() ==> (#[trigger] self.items@[j]) == orig[j]);
            lemma_unique_get(*self, def.id@, orig.len() as int);
            assert forall|id: Seq<char>| id != def.id@ implies final(self).spec_get(id) == old(
                self,
            ).spec_get(id) by {
                lemma_get_unaffected(*old(self), *self, id, orig.len() as int);
            }
        }
    }

    /// Look up a definition by id.
    pub fn get(&self, id: &String) -> (r: Option<&ItemDefinition>)
        requires
            self.wf(),
        ensures
            match r {
                Some(d) => self.spec_get(id@) == Some(*d),
                None => self.spec_get(id@) is None,
            },
    {
        let mut i: usize = 0;
        while i < self.items.len()
            invariant
                self.wf(),
                i <= self.items@.len(),
                forall|j: int| 0 <= j < i ==> (#[trigger] self.items@[j].id@) != id@,
            decreases self.items@.len() - i,
        {
            if self.items[i].id == *id {
                proof {
                    lemma_unique_get(*self, id@, i as int);
                }
                return Some(&self.items[i]);
            }
            i = i + 1;
        }
        None
    }

    /// Whether a definition with this id exists.
    pub fn contains(&self, id: &String) -> (r: bool)
        requires
            self.wf(),
        ensures
            r == self.spec_contains_id(id@),
    {
        self.get(id).is_some()
    }

    /// All definitions of the given item type, in database order. Every
    /// returned definition has that type, and every stored definition of
    /// that type is returned.
    pub fn get_by_type(&self, item_type: ItemType) -> (r: Vec<&ItemDefinition>)
        ensures
            forall|k: int|
                0 <= k < r@.len() ==> (#[trigger] r@[k]).item_type == item_type
                    && self.defs_view().contains(*r@[k]),
            forall|i: int|
                0 <= i < self.defs_view().len() && (#[trigger] self.defs_view()[i]).item_type
                    == item_type ==> exists|k: int| 0 <= k < r@.len() && *(#[trigger] r@[k])
                    == self.defs_view()[i],
    {
        let mut r: Vec<&ItemDefinition> = Vec::new();
        let mut i: usize = 0;
        while i < self.items.len()
            invariant
                i <= self.items@.len(),
                forall|k: int|
                    0 <= k < r@.len() ==> (#[trigger] r@[k]).item_type == item_type
                        && self.items@.contains(*r@[k]),
                forall|j: int|
                    0 <= j < i && (#[trigger] self.items@[j]).item_type == item_type ==> exists|
                        k: int,
                    | 0 <= k < r@.len() && *(#[trigger] r@[k]) == self.items@[j],
            decreases self.items@.len() - i,
        {
            let ghost r0 = r@;
            if self.items[i].item_type == item_type {
                r.push(&self.items[i]);
                proof {
                    assert(self.items@.contains(self.items@[i as int]));
                    assert(*r@[r0.len() as int] == self.items@[i as int]);
                }
            }
            proof {
                assert forall|j: int|
                    0 <= j < i + 1 && (#[trigger] self.items@[j]).item_type == item_type implies
                    exists|k: int| 0 <= k < r@.len() && *(#[trigger] r@[k]) == self.items@[j] by {
                    if j < i {
                        let k = choose|k: int| 0 <= k < r0.len() && *(#[trigger] r0[k])
                            == self.items@[j];
                        assert(*r@[k] == self.items@[j]);
                    } else {
                        assert(*r@[r0.len() as int] == self.items@[i as int]);
                    }
                }
            }
            i = i + 1;
        }
        r
    }

    /// All item ids, in database order.
    pub fn all_ids(&self) -> (r: Vec<&str>)
        ensures
            r@.len() == self.defs_view().len(),
            forall|k: int| 0 <= k < r@.len() ==> (#[trigger] r@[k])@ == self.defs_view()[k].id@,
    {
        let mut r: Vec<&str> = Vec::new();
        let mut i: usize = 0;
        while i < self.items.len()
            invariant
                i <= self.items@.len(),
                r@.len() == i,
                forall|k: int| 0 <= k < i ==> (#[trigger] r@[k])@ == self.items@[k].id@,
            decreases self.items@.len() - i,
        {
            r.push(self.items[i].id.as_str());
            i = i + 1;
        }
        r
    }

    /// Number of stored definitions.
    pub fn len(&self) -> (n: usize)
        ensures
            n == self.defs_view().len(),
    {
        self.items.len()
    }

    /// Whether the database holds no definitions.
    pub fn is_empty(&self) -> (r: bool)
        ensures
            r == (self.defs_view().len() == 0),
    {
        self.items.is_empty()
    }

    /// All (id, definition) pairs, in database order.
    pub fn iter(&self) -> (r: Vec<(&str, &ItemDefinition)>)
        ensures
            r@.len() == self.defs_view().len(),
            forall|k: int|
                0 <= k < r@.len() ==> {
                    &&& (#[trigger] r@[k]).0@ == self.defs_view()[k].id@
                    &&& *r@[k].1 == self.defs_view()[k]
                },
    {
        let mut r: Vec<(&str, &ItemDefinition)> = Vec::new();
        let mut i: usize = 0;
        while i < self.items.len()
            invariant
                i <= self.items@.len(),
                r@.len() == i,
                forall|k: int|
                    0 <= k < i ==> {
                        &&& (#[trigger] r@[k]).0@ == self.items@[k].id@
                        &&& *r@[k].1 == self.items@[k]
                    },
            decreases self.items@.len() - i,
        {
            let item = &self.items[i];
            r.push((item.id.as_str(), item));
            i = i + 1;
        }
        r
    }
}

/// In a database with unique ids, an index whose definition carries `id`
/// is the index `spec_get` denotes.
proof fn lemma_unique_get(db: ItemDatabase, id: Seq<char>, i: int)
    requires
        db.wf(),
        0 <= i < db.defs_view().len(),
        db.defs_view()[i].id@ == id,
    ensures
        db.spec_contains_id(id),
        db.spec_index_of(id) == i,
        db.spec_get(id) == Some(db.defs_view()[i]),
{
    assert(db.spec_contains_id(id));
    let w = db.spec_index_of(id);
    if w != i {
        if w < i {
            assert(db.defs_view()[w].id@ != db.defs_view()[i].id@);
        } else {
            assert(db.defs_view()[i].id@ != db.defs_view()[w].id@);
        }
    }
}

/// A lookup for an id is unaffected by changing the definition stored at an
/// index whose id differs, when the sequences agree elsewhere.
proof fn lemma_get_unaffected(a: ItemDatabase, b: ItemDatabase, id: Seq<char>, i: int)
    requires
        a.wf(),
        b.wf(),
        id != b.defs_view()[i].id@,
        0 <= i < b.defs_view().len(),
        a.defs_view().len() == b.defs_view().len() || a.defs_view().len() + 1 == b.defs_view().len()
            && i == a.defs_view().len(),
        forall|j: int|
            0 <= j < b.defs_view().len() && j != i ==> (#[trigger] b.defs_view()[j])
                == a.defs_view()[j],
        a.defs_view().len() == b.defs_view().len() ==> id != a.defs_view()[i].id@,
    ensures
        b.spec_get(id) == a.spec_get(id),
{
    if b.spec_contains_id(id) {
        let w = b.spec_index_of(id);
        assert(w != i);
        assert(a.defs_view()[w].id@ == id);
        lemma_unique_get(a, id, w);
        lemma_unique_get(b, id, w);
    } else if a.spec_contains_id(id) {
        let w = a.spec_index_of(id);
        assert(0 <= w < a.defs_view().len() && a.defs_view()[w].id@ == id);
        assert(w != i || a.defs_view().len() == b.defs_view().len());
        assert(b.defs_view()[w].id@ == id);
        assert(b.spec_contains_id(id));
    }
}

/// Errors that can occur when loading item data.
#[derive(Debug)]
pub enum ItemLoadError {
    /// Reading the data source failed.
    Io { path: String, error: String },
    /// The data did not parse.
    Parse { error: String },
}

} // verus!
