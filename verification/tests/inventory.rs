use grf_engine::{Inventory, ItemStack, Quality};

#[test]
fn test_new_inventory() {
    let inv = Inventory::new(10);
    assert_eq!(inv.size(), 10);
    assert_eq!(inv.empty_slots(), 10);
}

#[test]
fn test_add_item_simple() {
    let mut inv = Inventory::new(10);
    let overflow = inv.add_item(&"wood".to_string(), 50, Quality::Normal);

    assert_eq!(overflow, 0);
    assert_eq!(inv.count_item(&"wood".to_string()), 50);
}

#[test]
fn test_add_item_stacking() {
    let mut inv = Inventory::new(10);
    inv.add_item(&"wood".to_string(), 50, Quality::Normal);
    inv.add_item(&"wood".to_string(), 30, Quality::Normal);

    // Should stack in same slot
    assert_eq!(inv.count_item(&"wood".to_string()), 80);
    assert_eq!(inv.empty_slots(), 9);
}

#[test]
fn test_add_item_different_quality() {
    let mut inv = Inventory::new(10);
    inv.add_item(&"crop".to_string(), 10, Quality::Normal);
    inv.add_item(&"crop".to_string(), 10, Quality::Gold);

    // Different quality = different stacks
    assert_eq!(inv.count_item(&"crop".to_string()), 20);
    assert_eq!(inv.empty_slots(), 8);
}

#[test]
fn test_add_item_overflow() {
    let mut inv = Inventory::new(2);
    let overflow = inv.add_item_with_max_stack(&"stone".to_string(), 500, Quality::Normal, 100);

    // 2 slots * 100 = 200 max, 300 overflow
    assert_eq!(overflow, 300);
    assert_eq!(inv.count_item(&"stone".to_string()), 200);
}

#[test]
fn test_remove_item() {
    let mut inv = Inventory::new(10);
    inv.add_item(&"wood".to_string(), 100, Quality::Normal);

    let removed = inv.remove_item(&"wood".to_string(), 30);
    assert_eq!(removed, 30);
    assert_eq!(inv.count_item(&"wood".to_string()), 70);
}

#[test]
fn test_remove_item_partial() {
    let mut inv = Inventory::new(10);
    inv.add_item(&"wood".to_string(), 50, Quality::Normal);

    let removed = inv.remove_item(&"wood".to_string(), 100);
    assert_eq!(removed, 50);
    assert_eq!(inv.count_item(&"wood".to_string()), 0);
}

#[test]
fn test_has_item() {
    let mut inv = Inventory::new(10);
    inv.add_item(&"wood".to_string(), 50, Quality::Normal);

    assert!(inv.has_item(&"wood".to_string(), 50));
    assert!(inv.has_item(&"wood".to_string(), 30));
    assert!(!inv.has_item(&"wood".to_string(), 100));
    assert!(!inv.has_item(&"stone".to_string(), 1));
}

#[test]
fn test_swap_slots() {
    let mut inv = Inventory::new(10);
    inv.add_item(&"wood".to_string(), 50, Quality::Normal);
    inv.add_item(&"stone".to_string(), 30, Quality::Normal);

    inv.swap_slots(0, 1);

    assert_eq!(inv.get(0).map(|s| s.item_id.as_str()), Some("stone"));
    assert_eq!(inv.get(1).map(|s| s.item_id.as_str()), Some("wood"));
}

#[test]
fn test_hotbar_selection() {
    let mut inv = Inventory::new(36);

    assert_eq!(inv.selected_slot(), 0);

    inv.select_slot(5);
    assert_eq!(inv.selected_slot(), 5);

    inv.select_next();
    assert_eq!(inv.selected_slot(), 6);

    inv.select_slot(9);
    inv.select_next();
    assert_eq!(inv.selected_slot(), 0); // Wraps around
}

#[test]
fn test_select_prev_wraps() {
    let mut inv = Inventory::new(36);
    inv.select_prev();
    assert_eq!(inv.selected_slot(), 9);
    inv.select_prev();
    assert_eq!(inv.selected_slot(), 8);
}

#[test]
fn test_remove_item_with_quality_only_touches_that_quality() {
    let mut inv = Inventory::new(10);
    inv.add_item(&"crop".to_string(), 10, Quality::Normal);
    inv.add_item(&"crop".to_string(), 10, Quality::Gold);

    let removed = inv.remove_item_with_quality(&"crop".to_string(), 15, Quality::Gold);
    assert_eq!(removed, 10);
    assert_eq!(inv.count_item(&"crop".to_string()), 10);
}

#[test]
fn test_clear_slot_and_first_empty() {
    let mut inv = Inventory::new(3);
    inv.add_item(&"wood".to_string(), 5, Quality::Normal);
    assert_eq!(inv.first_empty_slot(), Some(1));
    let taken = inv.clear_slot(0).unwrap();
    assert_eq!(taken.item_id.as_str(), "wood");
    assert_eq!(taken.quantity, 5);
    assert_eq!(inv.first_empty_slot(), Some(0));
    assert!(inv.clear_slot(99).is_none());
}

#[test]
fn test_clear_and_is_full() {
    let mut inv = Inventory::new(2);
    inv.add_item(&"wood".to_string(), 5, Quality::Normal);
    inv.add_item(&"stone".to_string(), 5, Quality::Normal);
    assert!(inv.is_full());
    inv.clear();
    assert_eq!(inv.empty_slots(), 2);
    assert!(!inv.is_full());
}

#[test]
fn test_item_stack_add_remove() {
    let mut stack = ItemStack::new("wood", 990);
    assert!(!stack.is_full());
    assert_eq!(stack.remaining_space(), 9);
    // Only 9 more fit (default maximum is 999).
    let overflow = stack.add(20);
    assert_eq!(overflow, 11);
    assert_eq!(stack.quantity, 999);
    assert!(stack.is_full());
    let removed = stack.remove(1500);
    assert_eq!(removed, 999);
    assert_eq!(stack.quantity, 0);
}

#[test]
fn test_quality_stars() {
    assert_eq!(Quality::Normal.stars(), 0);
    assert_eq!(Quality::Silver.stars(), 1);
    assert_eq!(Quality::Gold.stars(), 2);
    assert_eq!(Quality::Iridium.stars(), 3);
}

#[test]
fn test_selected_item_and_is_empty() {
    let mut inv = Inventory::new(10);
    assert!(inv.selected_item().is_none());
    assert!(inv.is_empty(0));
    inv.add_item(&"wood".to_string(), 7, Quality::Silver);
    assert!(!inv.is_empty(0));
    let sel = inv.selected_item().unwrap();
    assert_eq!(sel.item_id.as_str(), "wood");
    assert_eq!(sel.quantity, 7);
    assert!(matches!(sel.quality, Quality::Silver));
}
