use vstd::prelude::*;

verus! {

/// Maximum default stack size.
pub const DEFAULT_MAX_STACK: u32 = 999;

/// Default inventory size.
pub const DEFAULT_INVENTORY_SIZE: usize = 36;

/// Hotbar size (the first slots of the inventory).
pub const HOTBAR_SIZE: usize = 10;

/// Item quality levels.
#[derive(Debug, Clone, Copy, PartialEq, Eq, Structural, Hash)]
pub enum Quality {
    Normal,
    Silver,
    Gold,
    Iridium,
}

impl Quality {
    /// Quality star count for display.
    pub fn stars(self) -> (r: u32)
        ensures
            r == (match self {
                Quality::Normal => 0u32,
                Quality::Silver => 1u32,
                Quality::Gold => 2u32,
                Quality::Iridium => 3u32,
            }),
    {
        match self {
            Quality::Normal => 0,
            Quality::Silver => 1,
            Quality::Gold => 2,
            Quality::Iridium => 3,
        }
    }
}

impl Default for Quality {
    /// The default quality is `Normal`.
    fn default() -> (r: Self)
        ensures
            r == Quality::Normal,
    {
        Quality::Normal
    }
}

/// A stack of items occupying one inventory slot.
#[derive(Debug, Clone)]
pub struct ItemStack {
    /// Item type identifier.
    pub item_id: String,
    /// Quantity in this stack.
    pub quantity: u32,
    /// Quality level.
    pub quality: Quality,
    /// Maximum stack size for this item type.
    pub max_stack: u32,
}

impl ItemStack {
    /// Create a new item stack with normal quality and the default maximum
    /// stack size.
    pub fn new(item_id: &str, quantity: u32) -> (s: ItemStack)
        ensures
            s.item_id@ == item_id@,
            s.quantity == quantity,
            s.quality == Quality::Normal,
            s.max_stack == DEFAULT_MAX_STACK,
    {
        ItemStack {
            item_id: item_id.to_owned(),
            quantity,
            quality: Quality::Normal,
            max_stack: DEFAULT_MAX_STACK,
        }
    }

    /// This stack with the given quality.
    pub fn with_quality(self, quality: Quality) -> (s: ItemStack)
        ensures
            s == (ItemStack { quality, ..self }),
    {
        ItemStack { quality, ..self }
    }

    /// This stack with a custom maximum stack size.
    pub fn with_max_stack(self, max_stack: u32) -> (s: ItemStack)
        ensures
            s == (ItemStack { max_stack, ..self }),
    {
        ItemStack { max_stack, ..self }
    }

    /// Whether the stack is at (or beyond) its maximum size.
    pub fn is_full(&self) -> (r: bool)
        ensures
            r == (self.quantity >= self.max_stack),
    {
        self.quantity >= self.max_stack
    }

    /// How many more items this stack can hold.
    pub fn remaining_space(&self) -> (r: u32)
        ensures
            r == if self.quantity >= self.max_stack {
                0int
            } else {
                self.max_stack - self.quantity
            },
    {
        if self.quantity >= self.max_stack {
            0
        } else {
            self.max_stack - self.quantity
        }
    }

    /// Whether items of the given type and quality can be added to this
    /// stack.
    pub fn can_stack_with(&self, item_id: &String, quality: Quality) -> (r: bool)
        ensures
            r == (self.item_id@ == item_id@ && self.quality == quality && self.quantity
                < self.max_stack),
    {
        self.item_id == *item_id && self.quality == quality && !self.is_full()
    }

    /// Add up to `amount` items to this stack; the part that does not fit is
    /// returned.
    pub fn add(&mut self, amount: u32) -> (overflow: u32)
        ensures
            final(self).item_id == old(self).item_id,
            final(self).quality == old(self).quality,
            final(self).max_stack == old(self).max_stack,
            final(self).quantity == old(self).quantity + (amount - overflow),
            overflow == if old(self).remaining_space_spec() >= amount {
                0int
            } else {
                amount - old(self).remaining_space_spec()
            },
    {
        let space = self.remaining_space();
        let can_add: u32 = if space < amount {
            space
        } else {
            amount
        };
        self.quantity = self.quantity + can_add;
        amount - can_add
    }

    /// Remove up to `amount` items from this stack; the number actually
    /// removed is returned.
    pub fn remove(&mut self, amount: u32) -> (removed: u32)
        ensures
            final(self).item_id == old(self).item_id,
            final(self).quality == old(self).quality,
            final(self).max_stack == old(self).max_stack,
            removed == if old(self).quantity < amount {
                old(self).quantity as int
            } else {
                amount as int
            },
            final(self).quantity == old(self).quantity - removed,
    {
        let can_remove: u32 = if self.quantity < amount {
            self.quantity
        } else {
            amount
        };
        self.quantity = self.quantity - can_remove;
        can_remove
    }

    /// Spec-level remaining space of the stack.
    pub open spec fn remaining_space_spec(self) -> int {
        if self.quantity >= self.max_stack {
            0
        } else {
            self.max_stack - self.quantity
        }
    }
}

/// How much a slot contributes to the count of item `id`, restricted to a
/// quality when one is given.
pub open spec fn slot_count(o: Option<ItemStack>, id: Seq<char>, q: Option<Quality>) -> int {
    match o {
        Some(s) => if s.item_id@ == id && (q is None || q == Some(s.quality)) {
            s.quantity as int
        } else {
            0
        },
        None => 0,
    }
}

/// Total quantity of item `id` (restricted to quality `q` when given) over a
/// sequence of slots.
pub open spec fn slots_count(slots: Seq<Option<ItemStack>>, id: Seq<char>, q: Option<
    Quality,
>) -> int
    decreases slots.len(),
{
    if slots.len() == 0 {
        0
    } else {
        slot_count(slots[0], id, q) + slots_count(slots.drop_first(), id, q)
    }
}

/// Updating one slot changes the count by exactly that slot's contribution.
proof fn lemma_slots_count_update(
    slots: Seq<Option<ItemStack>>,
    i: int,
    v: Option<ItemStack>,
    id: Seq<char>,
    q: Option<Quality>,
)
    requires
        0 <= i < slots.len(),
    ensures
        slots_count(slots.update(i, v), id, q) == slots_count(slots, id, q) - slot_count(
            slots[i],
            id,
            q,
        ) + slot_count(v, id, q),
    decreases slots.len(),
{
    if i == 0 {
        assert(slots.update(0, v).drop_first() =~= slots.drop_first());
    } else {
        assert(slots.update(i, v).drop_first() =~= slots.drop_first().update(i - 1, v));
        lemma_slots_count_update(slots.drop_first(), i - 1, v, id, q);
    }
}

/// Slot sequences with pointwise equal contributions have equal counts.
proof fn lemma_slots_count_pointwise(
    a: Seq<Option<ItemStack>>,
    b: Seq<Option<ItemStack>>,
    id: Seq<char>,
    q: Option<Quality>,
)
    requires
        a.len() == b.len(),
        forall|j: int| 0 <= j < a.len() ==> slot_count(#[trigger] a[j], id, q) == slot_count(
            b[j],
            id,
            q,
        ),
    ensures
        slots_count(a, id, q) == slots_count(b, id, q),
    decreases a.len(),
{
    if a.len() > 0 {
        assert(forall|j: int|
            0 <= j < a.drop_first().len() ==> slot_count(#[trigger] a.drop_first()[j], id, q)
                == slot_count(b.drop_first()[j], id, q));
        lemma_slots_count_pointwise(a.drop_first(), b.drop_first(), id, q);
    }
}

/// Slot-based inventory with automatic stacking and a hotbar selection.
#[derive(Debug, Clone)]
pub struct Inventory {
    /// Inventory slots (`None` = empty).
    slots: Vec<Option<ItemStack>>,
    /// Currently selected hotbar slot.
    selected_slot: usize,
}

impl Inventory {
    /// The slots, empty or filled.
    pub closed spec fn slots_view(self) -> Seq<Option<ItemStack>> {
        self.slots@
    }

    /// The currently selected hotbar slot.
    pub closed spec fn spec_selected(self) -> int {
        self.selected_slot as int
    }

    /// The selected slot always lies within the hotbar.
    pub closed spec fn wf(self) -> bool {
        self.selected_slot < HOTBAR_SIZE
    }

    /// The selected slot of a well-formed inventory lies within the hotbar,
    /// so `select_next` and `select_prev` wrap as a cycle of `HOTBAR_SIZE`
    /// positions.
    pub proof fn lemma_wf_selected_in_hotbar(&self)
        requires
            self.wf(),
        ensures
            0 <= self.spec_selected() < HOTBAR_SIZE,
    {
    }

    /// Total quantity of item `id` held, over all qualities.
    pub open spec fn spec_count_item(self, id: Seq<char>) -> int {
        slots_count(self.slots_view(), id, None)
    }

    /// Create an inventory with `size` empty slots, holding nothing.
    pub fn new(size: usize) -> (inv: Inventory)
        ensures
            inv.wf(),
            inv.slots_view().len() == size,
            forall|i: int| 0 <= i < size ==> inv.slots_view()[i] is None,
            forall|id: Seq<char>, q: Option<Quality>| slots_count(inv.slots_view(), id, q) == 0,
            inv.spec_selected() == 0,
    {
        let mut slots: Vec<Option<ItemStack>> = Vec::new();
        let mut i: usize = 0;
        while i < size
            invariant
                i <= size,
                slots@.len() == i,
                forall|j: int| 0 <= j < i ==> slots@[j] is None,
            decreases size - i,
        {
            slots.push(None);
            i = i + 1;
        }
        proof {
            assert forall|id: Seq<char>, q: Option<Quality>| slots_count(slots@, id, q) == 0 by {
                lemma_slots_count_zero(slots@, id, q);
            }
        }
        Inventory { slots, selected_slot: 0 }
    }

    /// Number of slots.
    pub fn size(&self) -> (n: usize)
        ensures
            n == self.slots_view().len(),
    {
        self.slots.len()
    }

    /// The stack in a slot, if the slot exists and is filled.
    pub fn get(&self, slot: usize) -> (r: Option<&ItemStack>)
        ensures
            match r {
                Some(s) => (slot as int) < self.slots_view().len() && self.slots_view()[slot as int]
                    == Some(*s),
                None => (slot as int) >= self.slots_view().len() || self.slots_view()[slot as int]
                    is None,
            },
    {
        if slot < self.slots.len() {
            self.slots[slot].as_ref()
        } else {
            None
        }
    }

    /// The stack in a slot, mutably; writing through the result changes
    /// exactly that slot.
    pub fn get_mut(&mut self, slot: usize) -> (r: Option<&mut ItemStack>)
        ensures
            ((slot as int) < old(self).slots_view().len() && old(self).slots_view()[slot as int]
                is Some) ==> {
                &&& r is Some
                &&& Some(*r->0) == old(self).slots_view()[slot as int]
                &&& final(self).slots_view() == old(self).slots_view().update(
                    slot as int,
                    Some(*final(r->0)),
                )
                &&& final(self).spec_selected() == old(self).spec_selected()
                &&& final(self).wf() == old(self).wf()
            },
            !((slot as int) < old(self).slots_view().len() && old(self).slots_view()[slot as int]
                is Some) ==> {
                &&& r is None
                &&& final(self).slots_view() =~= old(self).slots_view()
                &&& final(self).spec_selected() == old(self).spec_selected()
                &&& final(self).wf() == old(self).wf()
            },
    {
        if slot < self.slots.len() {
            let s = &mut self.slots[slot];
            s.as_mut()
        } else {
            None
        }
    }

    /// Whether a slot is empty (out-of-range slots count as empty).
    pub fn is_empty(&self, slot: usize) -> (r: bool)
        ensures
            r == ((slot as int) >= self.slots_view().len() || self.slots_view()[slot as int]
                is None),
    {
        if slot < self.slots.len() {
            self.slots[slot].is_none()
        } else {
            true
        }
    }

    /// Currently selected hotbar slot index.
    pub fn selected_slot(&self) -> (r: usize)
        ensures
            r as int == self.spec_selected(),
    {
        self.selected_slot
    }

    /// The stack in the selected hotbar slot, if any.
    pub fn selected_item(&self) -> (r: Option<&ItemStack>)
        ensures
            match r {
                Some(s) => self.spec_selected() < self.slots_view().len()
                    && self.slots_view()[self.spec_selected()] == Some(*s),
                None => self.spec_selected() >= self.slots_view().len()
                    || self.slots_view()[self.spec_selected()] is None,
            },
    {
        self.get(self.selected_slot)
    }

    /// Select a hotbar slot, clamping to the hotbar range.
    pub fn select_slot(&mut self, slot: usize)
        ensures
            final(self).slots_view() == old(self).slots_view(),
            final(self).spec_selected() == if slot < HOTBAR_SIZE {
                slot as int
            } else {
                HOTBAR_SIZE - 1
            },
            final(self).wf(),
    {
        self.selected_slot = if slot < HOTBAR_SIZE - 1 {
            slot
        } else {
            HOTBAR_SIZE - 1
        };
    }

    /// Select the next hotbar slot, wrapping around.
    pub fn select_next(&mut self)
        requires
            old(self).wf(),
        ensures
            final(self).slots_view() == old(self).slots_view(),
            final(self).spec_selected() == (old(self).spec_selected() + 1) % (HOTBAR_SIZE as int),
            final(self).wf(),
    {
        self.selected_slot = (self.selected_slot + 1) % HOTBAR_SIZE;
    }

    /// Select the previous hotbar slot, wrapping around.
    pub fn select_prev(&mut self)
        requires
            old(self).wf(),
        ensures
            final(self).slots_view() == old(self).slots_view(),
            final(self).spec_selected() == if old(self).spec_selected() == 0 {
                HOTBAR_SIZE - 1
            } else {
                old(self).spec_selected() - 1
            },
            final(self).wf(),
    {
        self.selected_slot = if self.selected_slot == 0 {
            HOTBAR_SIZE - 1
        } else {
            self.selected_slot - 1
        };
    }

    /// Add items to the inventory: first top up existing stacks of the same
    /// item and quality, then fill empty slots with stacks of at most
    /// `max_stack`. Returns the overflow that found no room. Exactly
    /// `quantity - overflow` items of `item_id` are added; every slot is
    /// either untouched, a matching stack topped up within its capacity, or
    /// an empty slot filled with a new stack of the added item; overflow is
    /// only reported when no slot can take more.
    pub fn add_item_with_max_stack(
        &mut self,
        item_id: &String,
        quantity: u32,
        quality: Quality,
        max_stack: u32,
    ) -> (overflow: u32)
        requires
            old(self).wf(),
        ensures
            final(self).wf(),
            final(self).slots_view().len() == old(self).slots_view().len(),
            final(self).spec_selected() == old(self).spec_selected(),
            overflow <= quantity,
            final(self).spec_count_item(item_id@) == old(self).spec_count_item(item_id@) + quantity
                - overflow,
            forall|id2: Seq<char>|
                id2 != item_id@ ==> final(self).spec_count_item(id2) == old(self).spec_count_item(
                    id2,
                ),
            overflow > 0 ==> forall|j: int|
                0 <= j < final(self).slots_view().len() ==> {
                    &&& (#[trigger] final(self).slots_view()[j]) is Some
                    &&& (final(self).slots_view()[j]->0.item_id@ == item_id@ && final(self).slots_view()[j]->0.quality == quality ==> final(self).slots_view()[j]->0.quantity
                        >= final(self).slots_view()[j]->0.max_stack)
                },
            forall|j: int|
                0 <= j < old(self).slots_view().len() ==> slot_eq_or_topped(
                    old(self).slots_view()[j],
                    #[trigger] final(self).slots_view()[j],
                    item_id@,
                    quality,
                ) || slot_eq_or_filled(
                    old(self).slots_view()[j],
                    final(self).slots_view()[j],
                    item_id@,
                    quality,
                    max_stack,
                ),
    {
        let ghost orig = self.slots@;
        let mut remaining: u32 = quantity;

        // First pass: top up existing matching stacks.
        let mut i: usize = 0;
        while i < self.slots.len() && remaining > 0
            invariant
                self.selected_slot == old(self).selected_slot,
                old(self).wf(),
                self.slots@.len() == orig.len(),
                orig == old(self).slots@,
                i <= self.slots@.len(),
                remaining <= quantity,
                slots_count(self.slots@, item_id@, None) == slots_count(orig, item_id@, None)
                    + quantity - remaining,
                forall|j: int|
                    0 <= j < orig.len() ==> slot_eq_or_topped(
                        orig[j],
                        #[trigger] self.slots@[j],
                        item_id@,
                        quality,
                    ),
                forall|j: int| i <= j < orig.len() ==> self.slots@[j] == orig[j],
                remaining > 0 ==> forall|j: int|
                    0 <= j < i ==> match #[trigger] self.slots@[j] {
                        Some(s) => s.item_id@ == item_id@ && s.quality == quality ==> s.quantity
                            >= s.max_stack,
                        None => true,
                    },
            decreases self.slots@.len() - i,
        {
            let matches: bool = match self.slots[i].as_ref() {
                Some(st) => st.can_stack_with(item_id, quality),
                None => false,
            };
            if matches {
                let ghost before = self.slots@;
                let slot = &mut self.slots[i];
                match slot.as_mut() {
                    Some(stack) => {
                        remaining = stack.add(remaining);
                        proof {
                            lemma_slots_count_update(
                                before,
                                i as int,
                                Some(*final(stack)),
                                item_id@,
                                None,
                            );
                        }
                    },
                    None => {},
                }
            }
            i = i + 1;
        }

        let ghost mid = self.slots@;
        let ghost rem_mid = remaining;
        proof {
            assert(rem_mid > 0 ==> forall|j: int|
                0 <= j < mid.len() ==> match #[trigger] mid[j] {
                    Some(s) => s.item_id@ == item_id@ && s.quality == quality ==> s.quantity
                        >= s.max_stack,
                    None => true,
                });
            assert forall|id2: Seq<char>| id2 != item_id@ implies slots_count(
                self.slots@,
                id2,
                None,
            ) == slots_count(orig, id2, None) by {
                assert(forall|j: int|
                    0 <= j < orig.len() ==> slot_count(#[trigger] self.slots@[j], id2, None)
                        == slot_count(orig[j], id2, None));
                lemma_slots_count_pointwise(self.slots@, orig, id2, None);
            }
        }

        // Second pass: fill empty slots with new stacks.
        let mut i2: usize = 0;
        while i2 < self.slots.len() && remaining > 0
            invariant
                self.selected_slot == old(self).selected_slot,
                old(self).wf(),
                self.slots@.len() == mid.len(),
                mid.len() == orig.len(),
                i2 <= self.slots@.len(),
                remaining <= rem_mid,
                rem_mid <= quantity,
                slots_count(self.slots@, item_id@, None) == slots_count(mid, item_id@, None) + (
                rem_mid - remaining),
                forall|j: int|
                    0 <= j < mid.len() ==> slot_eq_or_filled(
                        mid[j],
                        #[trigger] self.slots@[j],
                        item_id@,
                        quality,
                        max_stack,
                    ),
                forall|j: int| i2 <= j < mid.len() ==> self.slots@[j] == mid[j],
                rem_mid > 0 ==> forall|j: int|
                    0 <= j < mid.len() ==> match #[trigger] mid[j] {
                        Some(s) => s.item_id@ == item_id@ && s.quality == quality ==> s.quantity
                            >= s.max_stack,
                        None => true,
                    },
                remaining > 0 ==> forall|j: int|
                    0 <= j < i2 ==> {
                        &&& (#[trigger] self.slots@[j]) is Some
                        &&& (self.slots@[j]->0.item_id@ == item_id@ && self.slots@[j]->0.quality
                            == quality ==> self.slots@[j]->0.quantity
                            >= self.slots@[j]->0.max_stack)
                    },
            decreases self.slots@.len() - i2,
        {
            let ghost before = self.slots@;
            let empty = self.slots[i2].is_none();
            if empty {
                let can_add: u32 = if remaining < max_stack {
                    remaining
                } else {
                    max_stack
                };
                let stack = ItemStack::new(item_id.as_str(), can_add).with_quality(
                    quality,
                ).with_max_stack(max_stack);
                self.slots[i2] = Some(stack);
                remaining = remaining - can_add;
                proof {
                    lemma_slots_count_update(before, i2 as int, Some(stack), item_id@, None);
                }
            }
            i2 = i2 + 1;
        }

        proof {
            assert forall|id2: Seq<char>| id2 != item_id@ implies slots_count(
                self.slots@,
                id2,
                None,
            ) == slots_count(mid, id2, None) by {
                assert(forall|j: int|
                    0 <= j < mid.len() ==> slot_count(#[trigger] self.slots@[j], id2, None)
                        == slot_count(mid[j], id2, None));
                lemma_slots_count_pointwise(self.slots@, mid, id2, None);
            }
            // Compose the two passes per slot: a slot is untouched, topped
            // up, or filled from empty.
            assert forall|j: int| 0 <= j < orig.len() implies slot_eq_or_topped(
                orig[j],
                #[trigger] self.slots@[j],
                item_id@,
                quality,
            ) || slot_eq_or_filled(orig[j], self.slots@[j], item_id@, quality, max_stack) by {
                assert(slot_eq_or_topped(orig[j], mid[j], item_id@, quality));
                assert(slot_eq_or_filled(mid[j], self.slots@[j], item_id@, quality, max_stack));
            }
        }

        remaining
    }

    /// Add items with the default maximum stack size.
    pub fn add_item(&mut self, item_id: &String, quantity: u32, quality: Quality) -> (overflow:
        u32)
        requires
            old(self).wf(),
        ensures
            final(self).wf(),
            final(self).slots_view().len() == old(self).slots_view().len(),
            final(self).spec_selected() == old(self).spec_selected(),
            overflow <= quantity,
            final(self).spec_count_item(item_id@) == old(self).spec_count_item(item_id@) + quantity
                - overflow,
            forall|id2: Seq<char>|
                id2 != item_id@ ==> final(self).spec_count_item(id2) == old(self).spec_count_item(
                    id2,
                ),
            overflow > 0 ==> forall|j: int|
                0 <= j < final(self).slots_view().len() ==> {
                    &&& (#[trigger] final(self).slots_view()[j]) is Some
                    &&& (final(self).slots_view()[j]->0.item_id@ == item_id@ && final(self).slots_view()[j]->0.quality == quality ==> final(self).slots_view()[j]->0.quantity
                        >= final(self).slots_view()[j]->0.max_stack)
                },
            forall|j: int|
                0 <= j < old(self).slots_view().len() ==> slot_eq_or_topped(
                    old(self).slots_view()[j],
                    #[trigger] final(self).slots_view()[j],
                    item_id@,
                    quality,
                ) || slot_eq_or_filled(
                    old(self).slots_view()[j],
                    final(self).slots_view()[j],
                    item_id@,
                    quality,
                    DEFAULT_MAX_STACK,
                ),
    {
        self.add_item_with_max_stack(item_id, quantity, quality, DEFAULT_MAX_STACK)
    }

    /// Remove up to `quantity` items of `item_id` (any quality), emptying
    /// depleted stacks. Exactly `min(quantity, count)` items are removed;
    /// every slot is untouched or a matching stack shrank, and a stack
    /// drained to zero leaves an empty slot.
    pub fn remove_item(&mut self, item_id: &String, quantity: u32) -> (removed: u32)
        requires
            old(self).wf(),
        ensures
            final(self).wf(),
            final(self).slots_view().len() == old(self).slots_view().len(),
            final(self).spec_selected() == old(self).spec_selected(),
            removed == if old(self).spec_count_item(item_id@) < quantity {
                old(self).spec_count_item(item_id@)
            } else {
                quantity as int
            },
            final(self).spec_count_item(item_id@) == old(self).spec_count_item(item_id@) - removed,
            forall|id2: Seq<char>|
                id2 != item_id@ ==> final(self).spec_count_item(id2) == old(self).spec_count_item(
                    id2,
                ),
            forall|j: int|
                0 <= j < old(self).slots_view().len() ==> slot_eq_or_drained(
                    old(self).slots_view()[j],
                    #[trigger] final(self).slots_view()[j],
                    item_id@,
                    None,
                ),
    {
        self.remove_matching(item_id, quantity, None)
    }

    /// Remove up to `quantity` items of `item_id` with exactly the given
    /// quality.
    pub fn remove_item_with_quality(
        &mut self,
        item_id: &String,
        quantity: u32,
        quality: Quality,
    ) -> (removed: u32)
        requires
            old(self).wf(),
        ensures
            final(self).wf(),
            final(self).slots_view().len() == old(self).slots_view().len(),
            final(self).spec_selected() == old(self).spec_selected(),
            removed == if slots_count(old(self).slots_view(), item_id@, Some(quality)) < quantity {
                slots_count(old(self).slots_view(), item_id@, Some(quality))
            } else {
                quantity as int
            },
            slots_count(final(self).slots_view(), item_id@, Some(quality)) == slots_count(
                old(self).slots_view(),
                item_id@,
                Some(quality),
            ) - removed,
            forall|j: int|
                0 <= j < old(self).slots_view().len() ==> slot_eq_or_drained(
                    old(self).slots_view()[j],
                    #[trigger] final(self).slots_view()[j],
                    item_id@,
                    Some(quality),
                ),
    {
        self.remove_matching(item_id, quantity, Some(quality))
    }

    /// Shared removal walk: remove up to `quantity` items matching `item_id`
    /// and, when given, `quality`.
    fn remove_matching(&mut self, item_id: &String, quantity: u32, quality: Option<
        Quality,
    >) -> (removed: u32)
        requires
            old(self).wf(),
        ensures
            final(self).wf(),
            final(self).slots_view().len() == old(self).slots_view().len(),
            final(self).spec_selected() == old(self).spec_selected(),
            removed == if slots_count(old(self).slots_view(), item_id@, quality) < quantity {
                slots_count(old(self).slots_view(), item_id@, quality)
            } else {
                quantity as int
            },
            slots_count(final(self).slots_view(), item_id@, quality) == slots_count(
                old(self).slots_view(),
                item_id@,
                quality,
            ) - removed,
            forall|id2: Seq<char>|
                id2 != item_id@ ==> slots_count(final(self).slots_view(), id2, None) == slots_count(
                    old(self).slots_view(),
                    id2,
                    None,
                ),
            forall|j: int|
                0 <= j < old(self).slots_view().len() ==> slot_eq_or_drained(
                    old(self).slots_view()[j],
                    #[trigger] final(self).slots_view()[j],
                    item_id@,
                    quality,
                ),
    {
        let ghost orig = self.slots@;
        let mut remaining: u32 = quantity;
        let mut i: usize = 0;
        while i < self.slots.len() && remaining > 0
            invariant
                self.selected_slot == old(self).selected_slot,
                old(self).wf(),
                self.slots@.len() == orig.len(),
                orig == old(self).slots@,
                i <= self.slots@.len(),
                remaining <= quantity,
                slots_count(self.slots@, item_id@, quality) == slots_count(orig, item_id@, quality)
                    - (quantity - remaining),
                forall|j: int| i <= j < orig.len() ==> self.slots@[j] == orig[j],
                forall|j: int|
                    0 <= j < orig.len() ==> slot_eq_or_drained(
                        orig[j],
                        #[trigger] self.slots@[j],
                        item_id@,
                        quality,
                    ),
                remaining > 0 ==> forall|j: int|
                    0 <= j < i ==> slot_count(#[trigger] self.slots@[j], item_id@, quality) == 0,
            decreases self.slots@.len() - i,
        {
            let ghost before = self.slots@;
            let matches: bool = match self.slots[i].as_ref() {
                Some(stack) => {
                    stack.item_id == *item_id && (match quality {
                        Some(q) => stack.quality == q,
                        None => true,
                    })
                },
                None => false,
            };
            if matches {
                let mut emptied: bool = false;
                let slot = &mut self.slots[i];
                match slot.as_mut() {
                    Some(stack) => {
                        let took = stack.remove(remaining);
                        remaining = remaining - took;
                        emptied = stack.quantity == 0;
                    },
                    None => {},
                }
                proof {
                    lemma_slots_count_update(
                        before,
                        i as int,
                        self.slots@[i as int],
                        item_id@,
                        quality,
                    );
                }
                if emptied {
                    let ghost before2 = self.slots@;
                    self.slots[i] = None;
                    proof {
                        lemma_slots_count_update(before2, i as int, None, item_id@, quality);
                    }
                }
            }
            i = i + 1;
        }

        proof {
            assert forall|id2: Seq<char>| id2 != item_id@ implies slots_count(
                self.slots@,
                id2,
                None,
            ) == slots_count(orig, id2, None) by {
                assert(forall|j: int|
                    0 <= j < orig.len() ==> slot_count(#[trigger] self.slots@[j], id2, None)
                        == slot_count(orig[j], id2, None));
                lemma_slots_count_pointwise(self.slots@, orig, id2, None);
            }
            lemma_slots_count_prefix_bound(
                self.slots@,
                item_id@,
                quality,
                self.slots@.len() as int,
            );
            lemma_slots_count_prefix_bound(orig, item_id@, quality, orig.len() as int);
            if remaining > 0 {
                assert forall|j: int| 0 <= j < self.slots@.len() implies slot_count(
                    #[trigger] self.slots@[j],
                    item_id@,
                    quality,
                ) == 0 by {}
                lemma_slots_count_zero(self.slots@, item_id@, quality);
            }
        }

        quantity - remaining
    }

    /// Total quantity of an item over all slots and qualities.
    pub fn count_item(&self, item_id: &String) -> (n: u32)
        requires
            self.spec_count_item(item_id@) <= u32::MAX,
        ensures
            n == self.spec_count_item(item_id@),
    {
        let mut total: u32 = 0;
        let mut i: usize = 0;
        proof {
            lemma_slots_count_prefix_bound(self.slots@, item_id@, None, self.slots@.len() as int);
        }
        while i < self.slots.len()
            invariant
                self.spec_count_item(item_id@) <= u32::MAX,
                i <= self.slots@.len(),
                total == slots_count(self.slots@.take(i as int), item_id@, None),
                slots_count(self.slots@.take(i as int), item_id@, None) <= slots_count(
                    self.slots@,
                    item_id@,
                    None,
                ),
                slots_count(self.slots@, item_id@, None) >= 0,
            decreases self.slots@.len() - i,
        {
            let add: u32 = match self.slots[i].as_ref() {
                Some(stack) => {
                    if stack.item_id == *item_id {
                        stack.quantity
                    } else {
                        0
                    }
                },
                None => 0,
            };
            proof {
                lemma_slots_count_take_step(self.slots@, item_id@, None, i as int);
                lemma_slots_count_prefix_bound(self.slots@, item_id@, None, i + 1);
            }
            total = total + add;
            i = i + 1;
        }
        proof {
            assert(self.slots@.take(self.slots@.len() as int) =~= self.slots@);
        }
        total
    }

    /// Whether the inventory holds at least `quantity` of `item_id`.
    pub fn has_item(&self, item_id: &String, quantity: u32) -> (r: bool)
        requires
            self.spec_count_item(item_id@) <= u32::MAX,
        ensures
            r == (self.spec_count_item(item_id@) >= quantity),
    {
        self.count_item(item_id) >= quantity
    }

    /// Swap the contents of two slots; out-of-range indices are a no-op.
    pub fn swap_slots(&mut self, slot_a: usize, slot_b: usize)
        ensures
            final(self).spec_selected() == old(self).spec_selected(),
            final(self).wf() == old(self).wf(),
            ((slot_a as int) < old(self).slots_view().len() && (slot_b as int) < old(self).slots_view().len()) ==> final(self).slots_view() =~= old(self).slots_view().update(
                slot_a as int,
                old(self).slots_view()[slot_b as int],
            ).update(slot_b as int, old(self).slots_view()[slot_a as int]),
            !((slot_a as int) < old(self).slots_view().len() && (slot_b as int) < old(self).slots_view().len()) ==> final(self).slots_view() == old(self).slots_view(),
    {
        if slot_a < self.slots.len() && slot_b < self.slots.len() {
            let a = {
                let s = &mut self.slots[slot_a];
                s.take()
            };
            let b = {
                let s = &mut self.slots[slot_b];
                s.take()
            };
            self.slots[slot_a] = b;
            self.slots[slot_b] = a;
        }
    }

    /// Empty a slot, returning what it held; out-of-range slots yield
    /// nothing.
    pub fn clear_slot(&mut self, slot: usize) -> (r: Option<ItemStack>)
        ensures
            final(self).spec_selected() == old(self).spec_selected(),
            final(self).wf() == old(self).wf(),
            (slot as int) < old(self).slots_view().len() ==> {
                &&& r == old(self).slots_view()[slot as int]
                &&& final(self).slots_view() == old(self).slots_view().update(slot as int, None)
            },
            (slot as int) >= old(self).slots_view().len() ==> r is None && final(self).slots_view()
                == old(self).slots_view(),
    {
        if slot < self.slots.len() {
            let s = &mut self.slots[slot];
            s.take()
        } else {
            None
        }
    }

    /// Empty every slot.
    pub fn clear(&mut self)
        ensures
            final(self).spec_selected() == old(self).spec_selected(),
            final(self).wf() == old(self).wf(),
            final(self).slots_view().len() == old(self).slots_view().len(),
            forall|j: int| 0 <= j < final(self).slots_view().len() ==> final(self).slots_view()[j]
                is None,
    {
        let mut i: usize = 0;
        while i < self.slots.len()
            invariant
                self.selected_slot == old(self).selected_slot,
                self.slots@.len() == old(self).slots@.len(),
                i <= self.slots@.len(),
                forall|j: int| 0 <= j < i ==> self.slots@[j] is None,
            decreases self.slots@.len() - i,
        {
            self.slots[i] = None;
            i = i + 1;
        }
    }

    /// Index of the first empty slot, if any.
    pub fn first_empty_slot(&self) -> (r: Option<usize>)
        ensures
            match r {
                Some(i) => (i as int) < self.slots_view().len() && self.slots_view()[i as int]
                    is None && forall|j: int| 0 <= j < i ==> self.slots_view()[j] is Some,
                None => forall|j: int|
                    0 <= j < self.slots_view().len() ==> self.slots_view()[j] is Some,
            },
    {
        let mut i: usize = 0;
        while i < self.slots.len()
            invariant
                i <= self.slots@.len(),
                forall|j: int| 0 <= j < i ==> self.slots@[j] is Some,
            decreases self.slots@.len() - i,
        {
            if self.slots[i].is_none() {
                return Some(i);
            }
            i = i + 1;
        }
        None
    }

    /// Number of empty slots.
    pub fn empty_slots(&self) -> (n: usize)
        ensures
            n as int == spec_empty_count(self.slots_view()),
    {
        let mut count: usize = 0;
        let mut i: usize = 0;
        proof {
            lemma_empty_count_prefix_bound(self.slots@, self.slots@.len() as int);
        }
        while i < self.slots.len()
            invariant
                i <= self.slots@.len(),
                count as int == spec_empty_count(self.slots@.take(i as int)),
                count <= i,
            decreases self.slots@.len() - i,
        {
            proof {
                lemma_empty_count_take_step(self.slots@, i as int);
                lemma_empty_count_prefix_bound(self.slots@.take(i + 1), i + 1);
            }
            if self.slots[i].is_none() {
                count = count + 1;
            }
            i = i + 1;
        }
        proof {
            assert(self.slots@.take(self.slots@.len() as int) =~= self.slots@);
        }
        count
    }

    /// Whether no slot is empty.
    pub fn is_full(&self) -> (r: bool)
        ensures
            r == (spec_empty_count(self.slots_view()) == 0),
    {
        self.empty_slots() == 0
    }

    /// All slots with their indices, in order.
    pub fn iter(&self) -> (r: Vec<(usize, Option<&ItemStack>)>)
        ensures
            r@.len() == self.slots_view().len(),
            forall|j: int|
                0 <= j < r@.len() ==> {
                    &&& (#[trigger] r@[j]).0 == j
                    &&& (r@[j].1 is Some <==> self.slots_view()[j] is Some)
                    &&& (r@[j].1 is Some ==> Some(*r@[j].1->0) == self.slots_view()[j])
                },
    {
        let mut r: Vec<(usize, Option<&ItemStack>)> = Vec::new();
        let mut i: usize = 0;
        while i < self.slots.len()
            invariant
                i <= self.slots@.len(),
                r@.len() == i,
                forall|j: int|
                    0 <= j < i ==> {
                        &&& (#[trigger] r@[j]).0 == j
                        &&& (r@[j].1 is Some <==> self.slots@[j] is Some)
                        &&& (r@[j].1 is Some ==> Some(*r@[j].1->0) == self.slots@[j])
                    },
            decreases self.slots@.len() - i,
        {
            r.push((i, self.slots[i].as_ref()));
            i = i + 1;
        }
        r
    }

    /// The hotbar slots (the first `HOTBAR_SIZE` slots) with their indices.
    pub fn hotbar(&self) -> (r: Vec<(usize, Option<&ItemStack>)>)
        ensures
            r@.len() == if self.slots_view().len() < HOTBAR_SIZE {
                self.slots_view().len() as int
            } else {
                HOTBAR_SIZE as int
            },
            forall|j: int|
                0 <= j < r@.len() ==> {
                    &&& (#[trigger] r@[j]).0 == j
                    &&& (r@[j].1 is Some <==> self.slots_view()[j] is Some)
                    &&& (r@[j].1 is Some ==> Some(*r@[j].1->0) == self.slots_view()[j])
                },
    {
        let limit: usize = if self.slots.len() < HOTBAR_SIZE {
            self.slots.len()
        } else {
            HOTBAR_SIZE
        };
        let mut r: Vec<(usize, Option<&ItemStack>)> = Vec::new();
        let mut i: usize = 0;
        while i < limit
            invariant
                limit <= self.slots@.len(),
                i <= limit,
                r@.len() == i,
                forall|j: int|
                    0 <= j < i ==> {
                        &&& (#[trigger] r@[j]).0 == j
                        &&& (r@[j].1 is Some <==> self.slots@[j] is Some)
                        &&& (r@[j].1 is Some ==> Some(*r@[j].1->0) == self.slots@[j])
                    },
            decreases limit - i,
        {
            r.push((i, self.slots[i].as_ref()));
            i = i + 1;
        }
        r
    }
}

impl Default for Inventory {
    /// The default inventory has `DEFAULT_INVENTORY_SIZE` empty slots.
    fn default() -> (inv: Inventory)
        ensures
            inv.wf(),
            inv.slots_view().len() == DEFAULT_INVENTORY_SIZE,
            forall|i: int| 0 <= i < DEFAULT_INVENTORY_SIZE ==> inv.slots_view()[i] is None,
            inv.spec_selected() == 0,
    {
        Inventory::new(DEFAULT_INVENTORY_SIZE)
    }
}

/// Relation of a slot before and after the topping-up part of an add:
/// unchanged, or a stack of the added item and quality with the same
/// identity whose quantity grew, at most up to its capacity.
pub open spec fn slot_eq_or_topped(
    before: Option<ItemStack>,
    after: Option<ItemStack>,
    id: Seq<char>,
    quality: Quality,
) -> bool {
    ||| after == before
    ||| {
        &&& before is Some
        &&& after is Some
        &&& before->0.item_id@ == id
        &&& before->0.quality == quality
        &&& after->0.item_id == before->0.item_id
        &&& after->0.quality == before->0.quality
        &&& after->0.max_stack == before->0.max_stack
        &&& after->0.quantity >= before->0.quantity
        &&& after->0.quantity <= after->0.max_stack
    }
}

/// Relation of a slot before and after the second (filling) pass of an add:
/// unchanged, or an empty slot now holding a new stack of the added item.
pub open spec fn slot_eq_or_filled(
    before: Option<ItemStack>,
    after: Option<ItemStack>,
    id: Seq<char>,
    quality: Quality,
    max_stack: u32,
) -> bool {
    ||| after == before
    ||| {
        &&& before is None
        &&& after is Some
        &&& after->0.item_id@ == id
        &&& after->0.quality == quality
        &&& after->0.max_stack == max_stack
        &&& after->0.quantity <= max_stack
    }
}

/// Relation of a slot before and after a removal walk: unchanged, or a
/// matching stack shrank (a stack drained to zero becomes an empty slot,
/// never a zero-quantity stack).
pub open spec fn slot_eq_or_drained(
    before: Option<ItemStack>,
    after: Option<ItemStack>,
    id: Seq<char>,
    quality: Option<Quality>,
) -> bool {
    ||| after == before
    ||| {
        &&& before is Some
        &&& before->0.item_id@ == id
        &&& (quality is None || quality == Some(before->0.quality))
        &&& match after {
            Some(a) => a.item_id == before->0.item_id && a.quality == before->0.quality
                && a.max_stack == before->0.max_stack && a.quantity <= before->0.quantity && (
                a.quantity > 0 || a.quantity == before->0.quantity),
            None => true,
        }
    }
}

/// Slot contributions are non-negative, so one slot's contribution never
/// exceeds the whole count; this connects slot-level facts to `count_item`
/// totals.
pub proof fn lemma_slots_count_element_bound(
    slots: Seq<Option<ItemStack>>,
    j: int,
    id: Seq<char>,
    q: Option<Quality>,
)
    requires
        0 <= j < slots.len(),
    ensures
        slot_count(slots[j], id, q) <= slots_count(slots, id, q),
        slots_count(slots, id, q) >= 0,
    decreases slots.len(),
{
    lemma_slots_count_prefix_bound(slots, id, q, slots.len() as int);
    if j == 0 {
        lemma_slots_count_prefix_bound(slots.drop_first(), id, q, slots.drop_first().len() as int);
    } else {
        lemma_slots_count_element_bound(slots.drop_first(), j - 1, id, q);
    }
}

/// Number of empty slots in a slot sequence.
pub open spec fn spec_empty_count(slots: Seq<Option<ItemStack>>) -> int
    decreases slots.len(),
{
    if slots.len() == 0 {
        0
    } else {
        (if slots[0] is None {
            1int
        } else {
            0int
        }) + spec_empty_count(slots.drop_first())
    }
}

/// A count over a prefix never exceeds the count over the whole sequence,
/// and counts are non-negative.
proof fn lemma_slots_count_prefix_bound(
    slots: Seq<Option<ItemStack>>,
    id: Seq<char>,
    q: Option<Quality>,
    n: int,
)
    requires
        0 <= n <= slots.len(),
    ensures
        slots_count(slots, id, q) >= 0,
        slot_count(slots[n - 1], id, q) >= 0 || n == 0,
        slots_count(slots.take(n), id, q) >= 0,
        slots_count(slots.take(n), id, q) <= slots_count(slots, id, q),
    decreases slots.len(),
{
    if slots.len() == 0 {
        assert(slots.take(n) =~= slots);
    } else if n == 0 {
        assert(slots.take(0) =~= Seq::<Option<ItemStack>>::empty());
        lemma_slots_count_prefix_bound(slots.drop_first(), id, q, 0);
    } else {
        assert(slots.take(n).drop_first() =~= slots.drop_first().take(n - 1));
        lemma_slots_count_prefix_bound(slots.drop_first(), id, q, n - 1);
    }
}

/// Extending a prefix by one slot adds that slot's contribution.
proof fn lemma_slots_count_take_step(
    slots: Seq<Option<ItemStack>>,
    id: Seq<char>,
    q: Option<Quality>,
    i: int,
)
    requires
        0 <= i < slots.len(),
    ensures
        slots_count(slots.take(i + 1), id, q) == slots_count(slots.take(i), id, q) + slot_count(
            slots[i],
            id,
            q,
        ),
    decreases i,
{
    if i == 0 {
        assert(slots.take(1) =~= Seq::<Option<ItemStack>>::empty().push(slots[0]));
        assert(slots.take(1).drop_first() =~= Seq::<Option<ItemStack>>::empty());
        assert(slots.take(0) =~= Seq::<Option<ItemStack>>::empty());
    } else {
        assert(slots.take(i + 1).drop_first() =~= slots.drop_first().take(i));
        assert(slots.take(i).drop_first() =~= slots.drop_first().take(i - 1));
        lemma_slots_count_take_step(slots.drop_first(), id, q, i - 1);
    }
}

/// If every slot contributes nothing, the count is zero.
proof fn lemma_slots_count_zero(slots: Seq<Option<ItemStack>>, id: Seq<char>, q: Option<Quality>)
    requires
        forall|j: int| 0 <= j < slots.len() ==> slot_count(#[trigger] slots[j], id, q) == 0,
    ensures
        slots_count(slots, id, q) == 0,
    decreases slots.len(),
{
    if slots.len() > 0 {
        assert(forall|j: int|
            0 <= j < slots.drop_first().len() ==> slot_count(
                #[trigger] slots.drop_first()[j],
                id,
                q,
            ) == 0);
        lemma_slots_count_zero(slots.drop_first(), id, q);
    }
}

/// The number of empty slots in a prefix is at most the prefix length.
proof fn lemma_empty_count_prefix_bound(slots: Seq<Option<ItemStack>>, n: int)
    requires
        0 <= n <= slots.len(),
    ensures
        0 <= spec_empty_count(slots.take(n)) <= n,
    decreases n,
{
    if n == 0 {
        assert(slots.take(0) =~= Seq::<Option<ItemStack>>::empty());
    } else {
        assert(slots.take(n).drop_first() =~= slots.drop_first().take(n - 1));
        lemma_empty_count_prefix_bound(slots.drop_first(), n - 1);
        assert(slots.take(n)[0] == slots[0]);
    }
}

/// Extending a prefix by one slot adds one to the empty count exactly when
/// that slot is empty.
proof fn lemma_empty_count_take_step(slots: Seq<Option<ItemStack>>, i: int)
    requires
        0 <= i < slots.len(),
    ensures
        spec_empty_count(slots.take(i + 1)) == spec_empty_count(slots.take(i)) + (if slots[i]
            is None {
            1int
        } else {
            0int
        }),
    decreases i,
{
    if i == 0 {
        assert(slots.take(1).drop_first() =~= Seq::<Option<ItemStack>>::empty());
        assert(slots.take(0) =~= Seq::<Option<ItemStack>>::empty());
        assert(slots.take(1)[0] == slots[0]);
    } else {
        assert(slots.take(i + 1).drop_first() =~= slots.drop_first().take(i));
        assert(slots.take(i).drop_first() =~= slots.drop_first().take(i - 1));
        lemma_empty_count_take_step(slots.drop_first(), i - 1);
        assert(slots.take(i + 1)[0] == slots[0]);
        assert(slots.take(i)[0] == slots[0]);
    }
}

} // verus!

